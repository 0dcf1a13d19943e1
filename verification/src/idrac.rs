//! The manager itself.

use vstd::prelude::*;
use vstd::string::*;
use crate::model::{Settings, VersionData};
use crate::request::{asks_for, get, Request};
use crate::text::{joined, texts};

verus! {

/// The path of the manager resource.
pub open spec fn manager_path() -> Seq<char> {
    "/redfish/v1/Managers/iDRAC.Embedded.1"@
}

/// The lines that show a firmware version.
pub open spec fn version_lines(version: VersionData) -> Seq<Seq<char>> {
    seq!["iDRAC firmware version: "@ + version.firmware_version@]
}

/// The request for the manager resource.
pub fn idrac_version_request(settings: &Settings) -> (request: Request)
    ensures
        asks_for(request, *settings, manager_path()),
{
    get(settings, "/redfish/v1/Managers/iDRAC.Embedded.1")
}

/// The lines that show the manager's firmware version.
pub fn get_idrac_version(version: &VersionData) -> (lines: Vec<String>)
    ensures
        texts(lines@) == version_lines(*version),
{
    let mut lines: Vec<String> = Vec::new();
    lines.push(joined("iDRAC firmware version: ", version.firmware_version.as_str()));
    assert(texts(lines@) =~= version_lines(*version));
    lines
}

} // verus!
