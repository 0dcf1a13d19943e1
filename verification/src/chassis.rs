//! The chassis.

use vstd::prelude::*;
use vstd::string::*;
use crate::listing::{push_status, status_lines};
use crate::model::{enabled, ChassisInfo, Settings};
use crate::request::{asks_for, get, Request};
use crate::text::{joined, texts};

verus! {

/// The path of the chassis resource.
pub open spec fn chassis_path() -> Seq<char> {
    "/redfish/v1/Chassis/System.Embedded.1"@
}

/// The lines of a chassis that do not depend on its state.
pub open spec fn chassis_fixed_lines(info: ChassisInfo) -> Seq<Seq<char>> {
    seq![
        "Indicator LED: "@ + info.indicator_led@,
        "Type:          "@ + info.manufacturer@ + " "@ + info.model@,
        "Part number:   "@ + info.part_number@,
        "Serial number: "@ + info.serial_number@,
        "SKU:           "@ + info.sku@,
        "Power state:   "@ + info.power_state@,
    ]
}

/// The lines that show a chassis.
pub open spec fn chassis_lines(info: ChassisInfo) -> Seq<Seq<char>> {
    chassis_fixed_lines(info) + status_lines("Status:        "@, info.status)
}

/// The request for the chassis resource.
pub fn chassis_info_request(settings: &Settings) -> (request: Request)
    ensures
        asks_for(request, *settings, chassis_path()),
{
    get(settings, "/redfish/v1/Chassis/System.Embedded.1")
}

/// The lines that show a chassis: six that are always there, then the
/// health if the chassis is enabled.
pub fn get_chassis_info(info: &ChassisInfo) -> (lines: Vec<String>)
    ensures
        texts(lines@) == chassis_lines(*info),
        enabled(info.status) ==> texts(lines@) == chassis_fixed_lines(*info).push(
            "Status:        "@ + info.status.health@,
        ),
        !enabled(info.status) ==> texts(lines@) == chassis_fixed_lines(*info),
{
    let mut lines: Vec<String> = Vec::new();
    lines.push(joined("Indicator LED: ", info.indicator_led.as_str()));
    let mut kind: String = joined("Type:          ", info.manufacturer.as_str());
    kind.append(" ");
    kind.append(info.model.as_str());
    lines.push(kind);
    lines.push(joined("Part number:   ", info.part_number.as_str()));
    lines.push(joined("Serial number: ", info.serial_number.as_str()));
    lines.push(joined("SKU:           ", info.sku.as_str()));
    lines.push(joined("Power state:   ", info.power_state.as_str()));
    assert(texts(lines@) =~= chassis_fixed_lines(*info));
    push_status(&mut lines, "Status:        ", &info.status);
    assert(chassis_lines(*info) =~= if enabled(info.status) {
        chassis_fixed_lines(*info).push("Status:        "@ + info.status.health@)
    } else {
        chassis_fixed_lines(*info)
    });
    lines
}

} // verus!
