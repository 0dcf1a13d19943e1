//! Storage: subsystems, their controllers, volumes and drives.

use vstd::prelude::*;
use vstd::string::*;
use crate::dump::{
    field_of,
    field_text,
    flag_str,
    flag_text,
    list_of,
    list_text,
    quoted,
    quoted_field_of,
    struct_of,
    struct_text,
};
use crate::listing::{
    bullet_lines,
    list_lines,
    list_members,
    push_bullets,
    push_line,
    push_short_names,
    push_status,
    short_lines,
    status_lines,
};
use crate::model::{
    Chassis,
    DiskInfo,
    Links,
    MemberList,
    Settings,
    Status,
    StorageController,
    StorageControllerInfo,
    StorageVolumeInfo,
    Volume,
};
use crate::request::{asks_for, get, Request};
use crate::text::{decimal, decimal_text, joined, remove_all, texts, without};
use crate::units::{convert, size_text};

verus! {

/// The path of the collection of storage subsystems.
pub open spec fn storage_path() -> Seq<char> {
    "/redfish/v1/Systems/System.Embedded.1/Storage"@
}

/// What the path of every storage subsystem begins with.
pub open spec fn storage_prefix() -> Seq<char> {
    "/redfish/v1/Systems/System.Embedded.1/Storage/"@
}

/// What a controller's own path is expected to begin with.
pub open spec fn controller_prefix() -> Seq<char> {
    "/redfish/v1/Systems/System.Embedded.1/StorageControllers/"@
}

/// What the path of every volume begins with.
pub open spec fn volume_prefix() -> Seq<char> {
    "/redfish/v1/Systems/System.Embedded.1/Storage/Volumes/"@
}

/// What the path of every drive begins with.
pub open spec fn drive_prefix() -> Seq<char> {
    "/redfish/v1/Systems/System.Embedded.1/Storage/Drives/"@
}

/// Each of the prefixes that references are shortened by ends in a slash.
pub proof fn lemma_storage_prefixes_end_in_slash()
    ensures
        storage_prefix().len() > 0 && storage_prefix().last() == '/',
        controller_prefix().len() > 0 && controller_prefix().last() == '/',
        volume_prefix().len() > 0 && volume_prefix().last() == '/',
        drive_prefix().len() > 0 && drive_prefix().last() == '/',
{
    reveal_strlit("/redfish/v1/Systems/System.Embedded.1/Storage/");
    reveal_strlit("/redfish/v1/Systems/System.Embedded.1/StorageControllers/");
    reveal_strlit("/redfish/v1/Systems/System.Embedded.1/Storage/Volumes/");
    reveal_strlit("/redfish/v1/Systems/System.Embedded.1/Storage/Drives/");
}

/// The path of the storage subsystem `name`.
pub open spec fn controller_path(name: Seq<char>) -> Seq<char> {
    storage_prefix() + name
}

/// The path of the collection of volumes of the storage subsystem `name`.
pub open spec fn volumes_path(name: Seq<char>) -> Seq<char> {
    storage_prefix() + name + "/Volumes"@
}

/// The path of the volume `name`.
pub open spec fn volume_path(name: Seq<char>) -> Seq<char> {
    volume_prefix() + name
}

/// The path of the drive `name`.
pub open spec fn drive_path(name: Seq<char>) -> Seq<char> {
    drive_prefix() + name
}

/// The lines that show one controller of a storage subsystem.
pub open spec fn controller_lines(controller: StorageController) -> Seq<Seq<char>> {
    seq![
        "- Name:             "@ + without(controller.name@, controller_prefix()),
        "  Firmware version: "@ + controller.firmware_version@,
        "  Device type:      "@ + controller.manufacturer@ + " "@ + controller.model@,
        "  Speed:            "@ + decimal_text(controller.speed_gbps as nat) + " Gbps"@,
    ] + status_lines("  Status: "@, controller.status) + seq!["  Controller protocols:"@]
        + bullet_lines("    - "@, texts(controller.controller_protocols@)) + seq![
        "  Device protocols:"@,
    ] + bullet_lines("    - "@, texts(controller.device_protocols@))
}

/// The lines of several controllers, one controller after the other.
pub open spec fn controllers_lines(controllers: Seq<StorageController>) -> Seq<Seq<char>>
    decreases controllers.len(),
{
    if controllers.len() == 0 {
        Seq::empty()
    } else {
        controllers_lines(controllers.drop_last()) + controller_lines(controllers.last())
    }
}

/// The lines that show a storage subsystem.
pub open spec fn storage_controller_lines(info: StorageControllerInfo) -> Seq<Seq<char>> {
    seq!["Device name: "@ + info.name@, "Storage controller:"@] + controllers_lines(
        info.storage_controllers@,
    ) + seq!["Attached drives:"@] + short_lines(info.drives@, drive_prefix())
}

/// The lines that show a volume.
pub open spec fn volume_lines(info: StorageVolumeInfo) -> Seq<Seq<char>> {
    seq![
        "Volume name: "@ + info.name@,
        "Description: "@ + info.description@,
        "Block size:  "@ + decimal_text(info.block_size_bytes as nat) + " bytes"@,
        "Capacity:    "@ + size_text(info.capacity_bytes as nat),
        "Encrypted:   "@ + flag_text(info.encrypted),
    ] + status_lines("Status:      "@, info.status) + seq!["Drives:"@] + short_lines(
        info.links.drives@,
        drive_prefix(),
    )
}

/// The request for the collection of storage subsystems.
pub fn list_storage_controllers_request(settings: &Settings) -> (request: Request)
    ensures
        asks_for(request, *settings, storage_path()),
{
    get(settings, "/redfish/v1/Systems/System.Embedded.1/Storage")
}

/// The lines that show the storage subsystems: how many there are, then the
/// short name of each, in the order received.
pub fn list_storage_controllers(list: &MemberList) -> (lines: Vec<String>)
    ensures
        texts(lines@) == list_lines(*list, "storage controller"@, storage_prefix()),
        lines@.len() == 1 + list.members@.len(),
{
    list_members(list, "storage controller", "/redfish/v1/Systems/System.Embedded.1/Storage/")
}

/// The request for the storage subsystem `storage_controller`.
pub fn get_storage_controller_request(
    storage_controller: &Option<String>,
    settings: &Settings,
) -> (request: Request)
    requires
        storage_controller.is_some(),
    ensures
        asks_for(request, *settings, controller_path(storage_controller.unwrap()@)),
{
    let path: String = joined(
        "/redfish/v1/Systems/System.Embedded.1/Storage/",
        storage_controller.as_ref().unwrap().as_str(),
    );
    get(settings, path.as_str())
}

/// Appends the lines that show one controller.
pub fn push_controller(lines: &mut Vec<String>, controller: &StorageController)
    ensures
        texts(final(lines)@) == texts(old(lines)@) + controller_lines(*controller),
{
    let ghost before = texts(lines@);
    let short: String = remove_all(
        controller.name.as_str(),
        "/redfish/v1/Systems/System.Embedded.1/StorageControllers/",
    );
    push_line(lines, joined("- Name:             ", short.as_str()));
    push_line(lines, joined("  Firmware version: ", controller.firmware_version.as_str()));
    let mut kind: String = joined("  Device type:      ", controller.manufacturer.as_str());
    kind.append(" ");
    kind.append(controller.model.as_str());
    push_line(lines, kind);
    let mut speed: String = joined(
        "  Speed:            ",
        decimal(controller.speed_gbps as u64).as_str(),
    );
    speed.append(" Gbps");
    push_line(lines, speed);
    push_status(lines, "  Status: ", &controller.status);
    push_line(lines, String::from_str("  Controller protocols:"));
    push_bullets(lines, "    - ", &controller.controller_protocols);
    push_line(lines, String::from_str("  Device protocols:"));
    push_bullets(lines, "    - ", &controller.device_protocols);
    assert(texts(lines@) =~= before + controller_lines(*controller));
}

/// The lines that show a storage subsystem: its name, each of its
/// controllers, and the short names of the drives attached to it.
pub fn get_storage_controller(info: &StorageControllerInfo) -> (lines: Vec<String>)
    ensures
        texts(lines@) == storage_controller_lines(*info),
{
    let mut lines: Vec<String> = Vec::new();
    push_line(&mut lines, joined("Device name: ", info.name.as_str()));
    push_line(&mut lines, String::from_str("Storage controller:"));
    let ghost head = texts(lines@);
    assert(head =~= seq!["Device name: "@ + info.name@, "Storage controller:"@]);
    let mut i: usize = 0;
    assert(info.storage_controllers@.take(0) =~= Seq::<StorageController>::empty());
    assert(head + controllers_lines(info.storage_controllers@.take(0)) =~= head);
    while i < info.storage_controllers.len()
        invariant
            i <= info.storage_controllers.len(),
            texts(lines@) == head + controllers_lines(info.storage_controllers@.take(i as int)),
        decreases info.storage_controllers.len() - i,
    {
        push_controller(&mut lines, &info.storage_controllers[i]);
        proof {
            let done = info.storage_controllers@.take(i + 1);
            assert(done.drop_last() =~= info.storage_controllers@.take(i as int));
            assert(done.last() == info.storage_controllers@[i as int]);
            assert(head + controllers_lines(done.drop_last()) + controller_lines(done.last())
                =~= head + controllers_lines(done));
        }
        i += 1;
    }
    assert(info.storage_controllers@.take(i as int) =~= info.storage_controllers@);
    push_line(&mut lines, String::from_str("Attached drives:"));
    push_short_names(
        &mut lines,
        &info.drives,
        "/redfish/v1/Systems/System.Embedded.1/Storage/Drives/",
    );
    lines
}

/// The request for the volumes of the storage subsystem
/// `storage_controller`.
pub fn list_storage_volumes_request(
    storage_controller: &Option<String>,
    settings: &Settings,
) -> (request: Request)
    requires
        storage_controller.is_some(),
    ensures
        asks_for(request, *settings, volumes_path(storage_controller.unwrap()@)),
{
    let mut path: String = joined(
        "/redfish/v1/Systems/System.Embedded.1/Storage/",
        storage_controller.as_ref().unwrap().as_str(),
    );
    path.append("/Volumes");
    get(settings, path.as_str())
}

/// The lines that show the volumes of a storage subsystem: how many there
/// are, then the short name of each, in the order received.
pub fn list_storage_volumes(list: &MemberList) -> (lines: Vec<String>)
    ensures
        texts(lines@) == list_lines(*list, "storage volume"@, volume_prefix()),
        lines@.len() == 1 + list.members@.len(),
{
    list_members(
        list,
        "storage volume",
        "/redfish/v1/Systems/System.Embedded.1/Storage/Volumes/",
    )
}

/// The request for the volume `volume`.
pub fn get_storage_volume_request(
    volume: &Option<String>,
    settings: &Settings,
) -> (request: Request)
    requires
        volume.is_some(),
    ensures
        asks_for(request, *settings, volume_path(volume.unwrap()@)),
{
    let path: String = joined(
        "/redfish/v1/Systems/System.Embedded.1/Storage/Volumes/",
        volume.as_ref().unwrap().as_str(),
    );
    get(settings, path.as_str())
}

/// The lines that show a volume: its name, description, block size,
/// capacity in a readable unit, whether it is encrypted, its health if it is
/// enabled, and the short names of its drives.
pub fn get_storage_volume(info: &StorageVolumeInfo) -> (lines: Vec<String>)
    ensures
        texts(lines@) == volume_lines(*info),
{
    let mut lines: Vec<String> = Vec::new();
    push_line(&mut lines, joined("Volume name: ", info.name.as_str()));
    push_line(&mut lines, joined("Description: ", info.description.as_str()));
    let mut block: String = joined("Block size:  ", decimal(info.block_size_bytes).as_str());
    block.append(" bytes");
    push_line(&mut lines, block);
    push_line(&mut lines, joined("Capacity:    ", convert(info.capacity_bytes).as_str()));
    push_line(&mut lines, joined("Encrypted:   ", flag_str(info.encrypted)));
    push_status(&mut lines, "Status:      ", &info.status);
    push_line(&mut lines, String::from_str("Drives:"));
    push_short_names(
        &mut lines,
        &info.links.drives,
        "/redfish/v1/Systems/System.Embedded.1/Storage/Drives/",
    );
    assert(texts(lines@) =~= volume_lines(*info));
    lines
}

/// The request for the drive `disk`.
pub fn get_storage_disk_request(disk: &Option<String>, settings: &Settings) -> (request: Request)
    requires
        disk.is_some(),
    ensures
        asks_for(request, *settings, drive_path(disk.unwrap()@)),
{
    let path: String = joined(
        "/redfish/v1/Systems/System.Embedded.1/Storage/Drives/",
        disk.as_ref().unwrap().as_str(),
    );
    get(settings, path.as_str())
}

/// A health, written out field by field.
pub open spec fn status_text(status: Status) -> Seq<char> {
    struct_text(
        "Status"@,
        seq![
            field_text("health"@, quoted(status.health@)),
            field_text("state"@, quoted(status.state@)),
        ],
    )
}

/// A reference to a chassis, written out.
pub open spec fn chassis_text(chassis: Chassis) -> Seq<char> {
    struct_text("Chassis"@, seq![field_text("name"@, quoted(chassis.name@))])
}

/// A reference to a volume, written out.
pub open spec fn volume_text(volume: Volume) -> Seq<char> {
    struct_text("Volume"@, seq![field_text("name"@, quoted(volume.name@))])
}

/// Several references to volumes, each written out.
pub open spec fn volume_texts(volumes: Seq<Volume>) -> Seq<Seq<char>> {
    Seq::new(volumes.len(), |i: int| volume_text(volumes[i]))
}

/// What a drive is linked to, written out field by field.
pub open spec fn links_text(links: Links) -> Seq<char> {
    struct_text(
        "Links"@,
        seq![
            field_text("chassis"@, chassis_text(links.chassis)),
            field_text("volumes"@, list_text(volume_texts(links.volumes@))),
        ],
    )
}

/// A drive, written out field by field.
pub open spec fn disk_text(disk: DiskInfo) -> Seq<char> {
    struct_text(
        "DiskInfo"@,
        seq![
            field_text("block_size_bytes"@, decimal_text(disk.block_size_bytes as nat)),
            field_text("capable_speed_gbps"@, decimal_text(disk.capable_speed_gbps as nat)),
            field_text("capacity_bytes"@, decimal_text(disk.capacity_bytes as nat)),
            field_text("description"@, quoted(disk.description@)),
            field_text("failure_predicted"@, flag_text(disk.failure_predicted)),
            field_text("hotspare_type"@, quoted(disk.hotspare_type@)),
            field_text("links"@, links_text(disk.links)),
            field_text("manufacturer"@, quoted(disk.manufacturer@)),
            field_text("media_type"@, quoted(disk.media_type@)),
            field_text("model"@, quoted(disk.model@)),
            field_text("negotaited_speed_gbps"@, decimal_text(disk.negotaited_speed_gbps as nat)),
            field_text("protocol"@, quoted(disk.protocol@)),
            field_text("rotation_speed_rpm"@, decimal_text(disk.rotation_speed_rpm as nat)),
            field_text("status"@, status_text(disk.status)),
        ],
    )
}

/// Writes a health out.
pub fn write_status(status: &Status) -> (out: String)
    ensures
        out@ == status_text(*status),
{
    let mut fields: Vec<String> = Vec::new();
    push_line(&mut fields, quoted_field_of("health", status.health.as_str()));
    push_line(&mut fields, quoted_field_of("state", status.state.as_str()));
    assert(texts(fields@) =~= seq![
        field_text("health"@, quoted(status.health@)),
        field_text("state"@, quoted(status.state@)),
    ]);
    struct_of("Status", &fields)
}

fn write_name(kind: &str, name: &String) -> (out: String)
    ensures
        out@ == struct_text(kind@, seq![field_text("name"@, quoted(name@))]),
{
    let mut fields: Vec<String> = Vec::new();
    push_line(&mut fields, quoted_field_of("name", name.as_str()));
    assert(texts(fields@) =~= seq![field_text("name"@, quoted(name@))]);
    struct_of(kind, &fields)
}

/// Writes out what a drive is linked to.
pub fn write_links(links: &Links) -> (out: String)
    ensures
        out@ == links_text(*links),
{
    let mut volumes: Vec<String> = Vec::new();
    let mut i: usize = 0;
    assert(texts(volumes@) =~= volume_texts(links.volumes@).take(0));
    while i < links.volumes.len()
        invariant
            i <= links.volumes.len(),
            texts(volumes@) == volume_texts(links.volumes@).take(i as int),
        decreases links.volumes.len() - i,
    {
        push_line(&mut volumes, write_name("Volume", &links.volumes[i].name));
        i += 1;
        assert(volume_texts(links.volumes@).take(i - 1) + seq![
            volume_text(links.volumes@[i - 1]),
        ] =~= volume_texts(links.volumes@).take(i as int));
    }
    assert(volume_texts(links.volumes@).take(i as int) =~= volume_texts(links.volumes@));
    let mut fields: Vec<String> = Vec::new();
    push_line(
        &mut fields,
        field_of("chassis", write_name("Chassis", &links.chassis.name).as_str()),
    );
    push_line(&mut fields, field_of("volumes", list_of(&volumes).as_str()));
    assert(texts(fields@) =~= seq![
        field_text("chassis"@, chassis_text(links.chassis)),
        field_text("volumes"@, list_text(volume_texts(links.volumes@))),
    ]);
    struct_of("Links", &fields)
}

/// Writes a drive out field by field.
pub fn write_disk(disk: &DiskInfo) -> (out: String)
    ensures
        out@ == disk_text(*disk),
{
    let mut fields: Vec<String> = Vec::new();
    push_line(&mut fields, field_of("block_size_bytes", decimal(disk.block_size_bytes).as_str()));
    push_line(
        &mut fields,
        field_of("capable_speed_gbps", decimal(disk.capable_speed_gbps as u64).as_str()),
    );
    push_line(&mut fields, field_of("capacity_bytes", decimal(disk.capacity_bytes).as_str()));
    push_line(&mut fields, quoted_field_of("description", disk.description.as_str()));
    push_line(&mut fields, field_of("failure_predicted", flag_str(disk.failure_predicted)));
    push_line(&mut fields, quoted_field_of("hotspare_type", disk.hotspare_type.as_str()));
    push_line(&mut fields, field_of("links", write_links(&disk.links).as_str()));
    push_line(&mut fields, quoted_field_of("manufacturer", disk.manufacturer.as_str()));
    push_line(&mut fields, quoted_field_of("media_type", disk.media_type.as_str()));
    push_line(&mut fields, quoted_field_of("model", disk.model.as_str()));
    push_line(
        &mut fields,
        field_of("negotaited_speed_gbps", decimal(disk.negotaited_speed_gbps as u64).as_str()),
    );
    push_line(&mut fields, quoted_field_of("protocol", disk.protocol.as_str()));
    push_line(
        &mut fields,
        field_of("rotation_speed_rpm", decimal(disk.rotation_speed_rpm).as_str()),
    );
    push_line(&mut fields, field_of("status", write_status(&disk.status).as_str()));
    assert(texts(fields@) =~= seq![
        field_text("block_size_bytes"@, decimal_text(disk.block_size_bytes as nat)),
        field_text("capable_speed_gbps"@, decimal_text(disk.capable_speed_gbps as nat)),
        field_text("capacity_bytes"@, decimal_text(disk.capacity_bytes as nat)),
        field_text("description"@, quoted(disk.description@)),
        field_text("failure_predicted"@, flag_text(disk.failure_predicted)),
        field_text("hotspare_type"@, quoted(disk.hotspare_type@)),
        field_text("links"@, links_text(disk.links)),
        field_text("manufacturer"@, quoted(disk.manufacturer@)),
        field_text("media_type"@, quoted(disk.media_type@)),
        field_text("model"@, quoted(disk.model@)),
        field_text("negotaited_speed_gbps"@, decimal_text(disk.negotaited_speed_gbps as nat)),
        field_text("protocol"@, quoted(disk.protocol@)),
        field_text("rotation_speed_rpm"@, decimal_text(disk.rotation_speed_rpm as nat)),
        field_text("status"@, status_text(disk.status)),
    ]);
    struct_of("DiskInfo", &fields)
}

/// The one line that shows a drive: all of its fields, written out.
pub fn get_storage_disk(info: &DiskInfo) -> (lines: Vec<String>)
    ensures
        texts(lines@) == seq![disk_text(*info)],
{
    let mut lines: Vec<String> = Vec::new();
    push_line(&mut lines, write_disk(info));
    assert(texts(lines@) =~= seq![disk_text(*info)]);
    lines
}

} // verus!
