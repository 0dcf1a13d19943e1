//! Network adapters and their ports.
//!
//! Showing an adapter in detail takes one request per port after the
//! adapter's own. [`PortWalk`] decides those requests one at a time: the
//! caller makes each request and hands the answer back.

use vstd::prelude::*;
use vstd::string::*;
use crate::dump::{
    field_of,
    field_text,
    flag_str,
    flag_text,
    list_of,
    list_text,
    quoted,
    quoted_all,
    quoted_field_of,
    quoted_list_of,
    struct_of,
    struct_text,
};
use crate::listing::{
    bullet_lines,
    list_lines,
    list_members,
    push_bullets,
    push_line,
    push_names,
    short_names,
};
use crate::model::{
    LinkCapability,
    MemberList,
    NetworkAdapterController,
    NetworkAdapterInfo,
    NetworkAdapterList,
    Settings,
};
use crate::request::{asks_for, get, undecodable, undecodable_text, Request};
use crate::text::{decimal, decimal_text, joined, texts};

verus! {

/// The path of the collection of network adapters.
pub open spec fn adapters_path() -> Seq<char> {
    "/redfish/v1/Systems/System.Embedded.1/NetworkAdapters"@
}

/// What the path of every network adapter begins with.
pub open spec fn adapters_prefix() -> Seq<char> {
    "/redfish/v1/Systems/System.Embedded.1/NetworkAdapters/"@
}

/// The path of the adapter `adapter`.
pub open spec fn adapter_path(adapter: Seq<char>) -> Seq<char> {
    adapters_prefix() + adapter
}

/// What the path of every port of the adapter `adapter` begins with.
pub open spec fn ports_prefix(adapter: Seq<char>) -> Seq<char> {
    adapters_prefix() + adapter + "/NetworkPorts/"@
}

/// The path of the port `port` of the adapter `adapter`.
pub open spec fn port_path(adapter: Seq<char>, port: Seq<char>) -> Seq<char> {
    ports_prefix(adapter) + port
}

/// The short names of the ports of several controllers: controller after
/// controller, each controller's ports in their order, nothing left out
/// though it occur twice.
pub open spec fn port_names_of(
    controllers: Seq<NetworkAdapterController>,
    prefix: Seq<char>,
) -> Seq<Seq<char>>
    decreases controllers.len(),
{
    if controllers.len() == 0 {
        Seq::empty()
    } else {
        port_names_of(controllers.drop_last(), prefix) + short_names(
            controllers.last().links.network_ports@,
            prefix,
        )
    }
}

/// How many port references several controllers hold in all.
pub open spec fn port_total(controllers: Seq<NetworkAdapterController>) -> nat
    decreases controllers.len(),
{
    if controllers.len() == 0 {
        0
    } else {
        port_total(controllers.drop_last()) + controllers.last().links.network_ports@.len()
    }
}

/// There is one short name for each port reference: none is dropped, though
/// two controllers refer to the same port.
pub proof fn lemma_port_names_count(controllers: Seq<NetworkAdapterController>, prefix: Seq<char>)
    ensures
        port_names_of(controllers, prefix).len() == port_total(controllers),
    decreases controllers.len(),
{
    if controllers.len() > 0 {
        lemma_port_names_count(controllers.drop_last(), prefix);
    }
}

/// The prefixes that references to adapters and to their ports are
/// shortened by end in a slash.
pub proof fn lemma_network_prefixes_end_in_slash(adapter: Seq<char>)
    ensures
        adapters_prefix().len() > 0 && adapters_prefix().last() == '/',
        ports_prefix(adapter).len() > 0 && ports_prefix(adapter).last() == '/',
{
    reveal_strlit("/redfish/v1/Systems/System.Embedded.1/NetworkAdapters/");
    reveal_strlit("/NetworkPorts/");
}

/// One line per controller: how many ports the server reports for it.
pub open spec fn found_lines(controllers: Seq<NetworkAdapterController>) -> Seq<Seq<char>> {
    Seq::new(
        controllers.len(),
        |i: int|
            "Found "@ + decimal_text(controllers[i].links.port_count as nat)
                + " ports on controller:"@,
    )
}

/// The lines that show an adapter without its ports; an empty line follows
/// the serial number.
pub open spec fn adapter_summary_lines(
    adapter: Seq<char>,
    info: NetworkAdapterInfo,
) -> Seq<Seq<char>> {
    seq![
        "NIC:           "@ + adapter,
        "Manufacturer:  "@ + info.manufacturer@,
        "Model:         "@ + info.model@,
        "Part number:   "@ + info.part_number@,
        "Serial number: "@ + info.serial_number@,
        Seq::<char>::empty(),
    ] + found_lines(info.controllers@)
}

/// The lines that show an adapter and the short names of its ports.
pub open spec fn adapter_lines(adapter: Seq<char>, info: NetworkAdapterInfo) -> Seq<Seq<char>> {
    adapter_summary_lines(adapter, info) + bullet_lines(
        "- "@,
        port_names_of(info.controllers@, ports_prefix(adapter)),
    )
}

/// The request for the collection of network adapters.
pub fn list_network_adapters_request(settings: &Settings) -> (request: Request)
    ensures
        asks_for(request, *settings, adapters_path()),
{
    get(settings, "/redfish/v1/Systems/System.Embedded.1/NetworkAdapters")
}

/// The lines that show the network adapters: how many there are, then the
/// short name of each, in the order received.
pub fn list_network_adapters(list: &MemberList) -> (lines: Vec<String>)
    ensures
        texts(lines@) == list_lines(*list, "network adapter"@, adapters_prefix()),
        lines@.len() == 1 + list.members@.len(),
{
    list_members(
        list,
        "network adapter",
        "/redfish/v1/Systems/System.Embedded.1/NetworkAdapters/",
    )
}

/// The request for the adapter `network_adapter`.
pub fn get_network_adapter_request(
    network_adapter: &Option<String>,
    settings: &Settings,
) -> (request: Request)
    requires
        network_adapter.is_some(),
    ensures
        asks_for(request, *settings, adapter_path(network_adapter.unwrap()@)),
{
    let path: String = joined(
        "/redfish/v1/Systems/System.Embedded.1/NetworkAdapters/",
        network_adapter.as_ref().unwrap().as_str(),
    );
    get(settings, path.as_str())
}

/// The short names of an adapter's ports, in the order of the answer:
/// controller after controller, and nothing removed though it occur twice.
pub fn port_names(
    network_adapter: &Option<String>,
    info: &NetworkAdapterInfo,
) -> (names: Vec<String>)
    requires
        network_adapter.is_some(),
    ensures
        texts(names@) == port_names_of(
            info.controllers@,
            ports_prefix(network_adapter.unwrap()@),
        ),
{
    let mut prefix: String = joined(
        "/redfish/v1/Systems/System.Embedded.1/NetworkAdapters/",
        network_adapter.as_ref().unwrap().as_str(),
    );
    prefix.append("/NetworkPorts/");
    let mut names: Vec<String> = Vec::new();
    let mut i: usize = 0;
    assert(info.controllers@.take(0) =~= Seq::<NetworkAdapterController>::empty());
    assert(texts(names@) =~= port_names_of(info.controllers@.take(0), prefix@));
    while i < info.controllers.len()
        invariant
            i <= info.controllers.len(),
            prefix@ == ports_prefix(network_adapter.unwrap()@),
            texts(names@) == port_names_of(info.controllers@.take(i as int), prefix@),
        decreases info.controllers.len() - i,
    {
        push_names(&mut names, &info.controllers[i].links.network_ports, prefix.as_str());
        proof {
            let done = info.controllers@.take(i + 1);
            assert(done.drop_last() =~= info.controllers@.take(i as int));
            assert(done.last() == info.controllers@[i as int]);
        }
        i += 1;
    }
    assert(info.controllers@.take(i as int) =~= info.controllers@);
    names
}

/// The requests that showing an adapter's ports in detail still takes: the
/// ports in order, and how many of them have been asked for.
#[derive(Debug, Clone)]
pub struct PortWalk {
    pub adapter: String,
    pub ports: Vec<String>,
    pub next: usize,
}

/// What came back for one port.
#[derive(Debug, Clone)]
pub enum Answer {
    /// The answer had the expected shape.
    Decoded(NetworkAdapterList),
    /// The answer could not be decoded; the decoder's account of why.
    Undecodable(String),
}

/// What to do next while a walk goes on.
#[derive(Debug, Clone)]
pub enum Step {
    /// Show the lines, then make the request and hand its answer back.
    Fetch { lines: Vec<String>, request: Request },
    /// Show the lines; every port has been shown.
    Finished { lines: Vec<String> },
    /// Stop with the message; nothing more is shown or asked for.
    Aborted { message: String },
}

impl PortWalk {
    /// How many ports have not been asked for yet.
    pub open spec fn remaining(self) -> nat {
        if self.next <= self.ports@.len() {
            (self.ports@.len() - self.next) as nat
        } else {
            0
        }
    }

    /// Whether `step`, which leaves the walk as `after`, is how the walk
    /// goes on once `shown` is due: with a port left, show `shown` and the
    /// port's short name and ask for that port; with none left, show
    /// `shown` and finish.
    pub open spec fn goes_on(
        self,
        after: PortWalk,
        settings: Settings,
        shown: Seq<Seq<char>>,
        step: Step,
    ) -> bool {
        &&& after.adapter == self.adapter
        &&& after.ports == self.ports
        &&& if self.next < self.ports@.len() {
            &&& after.next == self.next + 1
            &&& match step {
                Step::Fetch { lines, request } => {
                    &&& texts(lines@) == shown + seq!["- "@ + self.ports@[self.next as int]@]
                    &&& asks_for(
                        request,
                        settings,
                        port_path(self.adapter@, self.ports@[self.next as int]@),
                    )
                },
                _ => false,
            }
        } else {
            &&& after.next == self.next
            &&& match step {
                Step::Finished { lines } => texts(lines@) == shown,
                _ => false,
            }
        }
    }

    fn proceed(&mut self, settings: &Settings, shown: Vec<String>) -> (step: Step)
        ensures
            old(self).goes_on(*final(self), *settings, texts(shown@), step),
    {
        let mut lines: Vec<String> = shown;
        if self.next < self.ports.len() {
            let port: &String = &self.ports[self.next];
            push_line(&mut lines, joined("- ", port.as_str()));
            let request: Request = retrieve_port_info(&self.adapter, port, settings);
            self.next = self.next + 1;
            Step::Fetch { lines, request }
        } else {
            Step::Finished { lines }
        }
    }

    /// Begins the walk: nothing is due to be shown yet.
    pub fn start(&mut self, settings: &Settings) -> (step: Step)
        ensures
            old(self).goes_on(*final(self), *settings, Seq::empty(), step),
    {
        let shown: Vec<String> = Vec::new();
        assert(texts(shown@) =~= Seq::<Seq<char>>::empty());
        self.proceed(settings, shown)
    }

    /// Takes the answer to the last request. A decoded port is shown and the
    /// walk goes on. An answer that could not be decoded ends the walk with
    /// a message: no line is shown for it and no further port is asked for.
    pub fn resume(&mut self, settings: &Settings, answer: &Answer) -> (step: Step)
        ensures
            match *answer {
                Answer::Decoded(port) => old(self).goes_on(
                    *final(self),
                    *settings,
                    seq![port_text(port)],
                    step,
                ),
                Answer::Undecodable(detail) => {
                    &&& final(self).adapter == old(self).adapter
                    &&& final(self).ports == old(self).ports
                    &&& final(self).remaining() == 0
                    &&& match step {
                        Step::Aborted { message } => message@ == undecodable_text(detail@),
                        _ => false,
                    }
                },
            },
    {
        match answer {
            Answer::Decoded(port) => {
                let mut shown: Vec<String> = Vec::new();
                push_line(&mut shown, write_port(port));
                assert(texts(shown@) =~= seq![port_text(*port)]);
                self.proceed(settings, shown)
            },
            Answer::Undecodable(detail) => {
                self.next = self.ports.len();
                Step::Aborted { message: undecodable(detail.as_str()) }
            },
        }
    }
}

/// A walk asks for each port once: every request leaves one port fewer to
/// ask for, and the walk finishes only when none is left.
pub proof fn lemma_one_request_per_port(
    before: PortWalk,
    after: PortWalk,
    settings: Settings,
    shown: Seq<Seq<char>>,
    step: Step,
)
    requires
        before.goes_on(after, settings, shown, step),
    ensures
        step is Fetch ==> before.remaining() == after.remaining() + 1,
        step is Finished ==> before.remaining() == 0 && after.remaining() == 0,
        !(step is Aborted),
{
}

/// The lines that show an adapter, and the walk over its ports. Without
/// `detailed` the lines end with the short name of each port and the walk
/// is empty. With `detailed` the lines stop before the ports, and the walk
/// holds them all, none asked for yet.
pub fn get_network_adapter(
    network_adapter: &Option<String>,
    info: &NetworkAdapterInfo,
    detailed: bool,
) -> (shown: (Vec<String>, PortWalk))
    requires
        network_adapter.is_some(),
    ensures
        shown.1.adapter@ == network_adapter.unwrap()@,
        shown.1.next == 0,
        detailed ==> texts(shown.0@) == adapter_summary_lines(network_adapter.unwrap()@, *info)
            && texts(shown.1.ports@) == port_names_of(
            info.controllers@,
            ports_prefix(network_adapter.unwrap()@),
        ),
        !detailed ==> texts(shown.0@) == adapter_lines(network_adapter.unwrap()@, *info)
            && shown.1.ports@.len() == 0,
{
    let name: &String = network_adapter.as_ref().unwrap();
    let mut lines: Vec<String> = Vec::new();
    push_line(&mut lines, joined("NIC:           ", name.as_str()));
    push_line(&mut lines, joined("Manufacturer:  ", info.manufacturer.as_str()));
    push_line(&mut lines, joined("Model:         ", info.model.as_str()));
    push_line(&mut lines, joined("Part number:   ", info.part_number.as_str()));
    push_line(&mut lines, joined("Serial number: ", info.serial_number.as_str()));
    push_line(&mut lines, String::new());
    let ghost head = texts(lines@);
    let mut i: usize = 0;
    assert(head + found_lines(info.controllers@).take(0) =~= head);
    while i < info.controllers.len()
        invariant
            i <= info.controllers.len(),
            texts(lines@) == head + found_lines(info.controllers@).take(i as int),
        decreases info.controllers.len() - i,
    {
        let mut found: String = joined(
            "Found ",
            decimal(info.controllers[i].links.port_count as u64).as_str(),
        );
        found.append(" ports on controller:");
        push_line(&mut lines, found);
        i += 1;
        assert(head + found_lines(info.controllers@).take(i - 1) + seq![
            "Found "@ + decimal_text(info.controllers@[i - 1].links.port_count as nat)
                + " ports on controller:"@,
        ] =~= head + found_lines(info.controllers@).take(i as int));
    }
    assert(found_lines(info.controllers@).take(i as int) =~= found_lines(info.controllers@));
    assert(texts(lines@) =~= adapter_summary_lines(name@, *info));
    let names: Vec<String> = port_names(network_adapter, info);
    if detailed {
        (lines, PortWalk { adapter: name.clone(), ports: names, next: 0 })
    } else {
        push_bullets(&mut lines, "- ", &names);
        (lines, PortWalk { adapter: name.clone(), ports: Vec::new(), next: 0 })
    }
}

/// The request for the port `port` of the adapter `network_adapter`.
pub fn retrieve_port_info(
    network_adapter: &String,
    port: &String,
    settings: &Settings,
) -> (request: Request)
    ensures
        asks_for(request, *settings, port_path(network_adapter@, port@)),
{
    let mut path: String = joined(
        "/redfish/v1/Systems/System.Embedded.1/NetworkAdapters/",
        network_adapter.as_str(),
    );
    path.append("/NetworkPorts/");
    path.append(port.as_str());
    get(settings, path.as_str())
}

/// A link capability, written out field by field.
pub open spec fn capability_text(capability: LinkCapability) -> Seq<char> {
    struct_text(
        "LinkCapability"@,
        seq![
            field_text("technology"@, quoted(capability.technology@)),
            field_text("speed_mbps"@, decimal_text(capability.speed_mbps as nat)),
        ],
    )
}

/// Several link capabilities, each written out.
pub open spec fn capability_texts(capabilities: Seq<LinkCapability>) -> Seq<Seq<char>> {
    Seq::new(capabilities.len(), |i: int| capability_text(capabilities[i]))
}

/// A port, written out field by field.
pub open spec fn port_text(port: NetworkAdapterList) -> Seq<char> {
    struct_text(
        "NetworkAdapterList"@,
        seq![
            field_text("technology"@, quoted(port.technology@)),
            field_text("addresses"@, list_text(quoted_all(port.addresses@))),
            field_text("link_status"@, quoted(port.link_status@)),
            field_text("physical_port_number"@, quoted(port.physical_port_number@)),
            field_text(
                "supported_ethernet_capabilities"@,
                list_text(quoted_all(port.supported_ethernet_capabilities@)),
            ),
            field_text(
                "supported_link_capabilities"@,
                list_text(capability_texts(port.supported_link_capabilities@)),
            ),
            field_text("wol_enabled"@, flag_text(port.wol_enabled)),
        ],
    )
}

/// Writes a link capability out.
pub fn write_capability(capability: &LinkCapability) -> (out: String)
    ensures
        out@ == capability_text(*capability),
{
    let mut fields: Vec<String> = Vec::new();
    push_line(&mut fields, quoted_field_of("technology", capability.technology.as_str()));
    push_line(&mut fields, field_of("speed_mbps", decimal(capability.speed_mbps).as_str()));
    assert(texts(fields@) =~= seq![
        field_text("technology"@, quoted(capability.technology@)),
        field_text("speed_mbps"@, decimal_text(capability.speed_mbps as nat)),
    ]);
    struct_of("LinkCapability", &fields)
}

/// Writes a port out field by field.
pub fn write_port(port: &NetworkAdapterList) -> (out: String)
    ensures
        out@ == port_text(*port),
{
    let capabilities: &Vec<LinkCapability> = &port.supported_link_capabilities;
    let mut written: Vec<String> = Vec::new();
    let mut i: usize = 0;
    assert(texts(written@) =~= capability_texts(capabilities@).take(0));
    while i < capabilities.len()
        invariant
            i <= capabilities.len(),
            texts(written@) == capability_texts(capabilities@).take(i as int),
        decreases capabilities.len() - i,
    {
        push_line(&mut written, write_capability(&capabilities[i]));
        i += 1;
        assert(capability_texts(capabilities@).take(i - 1) + seq![
            capability_text(capabilities@[i - 1]),
        ] =~= capability_texts(capabilities@).take(i as int));
    }
    assert(capability_texts(capabilities@).take(i as int) =~= capability_texts(capabilities@));
    let mut fields: Vec<String> = Vec::new();
    push_line(&mut fields, quoted_field_of("technology", port.technology.as_str()));
    push_line(&mut fields, field_of("addresses", quoted_list_of(&port.addresses).as_str()));
    push_line(&mut fields, quoted_field_of("link_status", port.link_status.as_str()));
    push_line(
        &mut fields,
        quoted_field_of("physical_port_number", port.physical_port_number.as_str()),
    );
    push_line(
        &mut fields,
        field_of(
            "supported_ethernet_capabilities",
            quoted_list_of(&port.supported_ethernet_capabilities).as_str(),
        ),
    );
    push_line(&mut fields, field_of("supported_link_capabilities", list_of(&written).as_str()));
    push_line(&mut fields, field_of("wol_enabled", flag_str(port.wol_enabled)));
    assert(texts(fields@) =~= seq![
        field_text("technology"@, quoted(port.technology@)),
        field_text("addresses"@, list_text(quoted_all(port.addresses@))),
        field_text("link_status"@, quoted(port.link_status@)),
        field_text("physical_port_number"@, quoted(port.physical_port_number@)),
        field_text(
            "supported_ethernet_capabilities"@,
            list_text(quoted_all(port.supported_ethernet_capabilities@)),
        ),
        field_text(
            "supported_link_capabilities"@,
            list_text(capability_texts(port.supported_link_capabilities@)),
        ),
        field_text("wol_enabled"@, flag_text(port.wol_enabled)),
    ]);
    struct_of("NetworkAdapterList", &fields)
}

/// The text that an answer for one port is shown as.
pub open spec fn port_answer_lines(answer: Result<NetworkAdapterList, String>) -> Seq<Seq<char>> {
    match answer {
        Ok(port) => seq![port_text(port)],
        Err(reason) => seq!["Error: "@ + reason@],
    }
}

/// The one line that shows what came back for a port: all of the port's
/// fields written out, or the reason why there is no port.
pub fn get_network_port(answer: &Result<NetworkAdapterList, String>) -> (lines: Vec<String>)
    ensures
        texts(lines@) == port_answer_lines(*answer),
{
    let mut lines: Vec<String> = Vec::new();
    match answer {
        Ok(port) => {
            push_line(&mut lines, write_port(port));
        },
        Err(reason) => {
            push_line(&mut lines, joined("Error: ", reason.as_str()));
        },
    }
    assert(texts(lines@) =~= port_answer_lines(*answer));
    lines
}

} // verus!
