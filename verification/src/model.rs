//! The resources that the management interface answers with, each reduced to
//! the fields that are shown.

use vstd::prelude::*;

verus! {

/// Where to connect and as whom.
#[derive(Debug, Clone)]
pub struct Settings {
    pub host: String,
    pub user: String,
    pub password: String,
}

/// Health of a resource. The health means something only while the state is
/// `Enabled`.
#[derive(Debug, Clone)]
pub struct Status {
    pub health: String,
    pub state: String,
}

/// The manager's firmware version.
#[derive(Debug, Clone)]
pub struct VersionData {
    pub firmware_version: String,
}

/// One chassis.
#[derive(Debug, Clone)]
pub struct ChassisInfo {
    pub indicator_led: String,
    pub manufacturer: String,
    pub model: String,
    pub part_number: String,
    pub power_state: String,
    pub sku: String,
    pub serial_number: String,
    pub status: Status,
}

/// A reference to another resource, by its path.
#[derive(Debug, Clone)]
pub struct Reference {
    pub name: String,
}

/// A collection resource: its name and its entries, in the order received.
#[derive(Debug, Clone)]
pub struct MemberList {
    pub name: String,
    pub members: Vec<Reference>,
}

/// The ports of one controller. The count is what the server reports; it is
/// expected to equal the number of references but nothing depends on that.
#[derive(Debug, Clone)]
pub struct NetworkAdapterControllerLink {
    pub port_count: u8,
    pub network_ports: Vec<Reference>,
}

/// One controller of a network adapter.
#[derive(Debug, Clone)]
pub struct NetworkAdapterController {
    pub firmware_package_version: String,
    pub links: NetworkAdapterControllerLink,
}

/// One network adapter.
#[derive(Debug, Clone)]
pub struct NetworkAdapterInfo {
    pub manufacturer: String,
    pub model: String,
    pub part_number: String,
    pub serial_number: String,
    pub controllers: Vec<NetworkAdapterController>,
}

/// A link technology together with a speed it supports.
#[derive(Debug, Clone)]
pub struct LinkCapability {
    pub technology: String,
    pub speed_mbps: u64,
}

/// One port of a network adapter, in detail.
#[derive(Debug, Clone)]
pub struct NetworkAdapterList {
    pub technology: String,
    pub addresses: Vec<String>,
    pub link_status: String,
    pub physical_port_number: String,
    pub supported_ethernet_capabilities: Vec<String>,
    pub supported_link_capabilities: Vec<LinkCapability>,
    pub wol_enabled: bool,
}

/// One controller inside a storage subsystem.
#[derive(Debug, Clone)]
pub struct StorageController {
    pub name: String,
    pub firmware_version: String,
    pub manufacturer: String,
    pub model: String,
    pub speed_gbps: u8,
    pub status: Status,
    pub controller_protocols: Vec<String>,
    pub device_protocols: Vec<String>,
}

/// One storage subsystem.
#[derive(Debug, Clone)]
pub struct StorageControllerInfo {
    pub name: String,
    pub drives: Vec<Reference>,
    pub status: Status,
    pub storage_controllers: Vec<StorageController>,
}

/// The drives that a volume lies on.
#[derive(Debug, Clone)]
pub struct Drives {
    pub drives: Vec<Reference>,
}

/// One volume.
#[derive(Debug, Clone)]
pub struct StorageVolumeInfo {
    pub name: String,
    pub description: String,
    pub block_size_bytes: u64,
    pub capacity_bytes: u64,
    pub encrypted: bool,
    pub links: Drives,
    pub status: Status,
    pub volume_type: String,
}

/// A reference to the chassis that holds a drive.
#[derive(Debug, Clone)]
pub struct Chassis {
    pub name: String,
}

/// A reference to a volume that lies on a drive.
#[derive(Debug, Clone)]
pub struct Volume {
    pub name: String,
}

/// What a drive is linked to.
#[derive(Debug, Clone)]
pub struct Links {
    pub chassis: Chassis,
    pub volumes: Vec<Volume>,
}

/// One physical drive.
#[derive(Debug, Clone)]
pub struct DiskInfo {
    pub block_size_bytes: u64,
    pub capable_speed_gbps: u8,
    pub capacity_bytes: u64,
    pub description: String,
    pub failure_predicted: bool,
    pub hotspare_type: String,
    pub links: Links,
    pub manufacturer: String,
    pub media_type: String,
    pub model: String,
    /// Spelled as it appears in the text shown for a drive.
    pub negotaited_speed_gbps: u8,
    pub protocol: String,
    pub rotation_speed_rpm: u64,
    pub status: Status,
}

/// Whether a resource is enabled, which is when its health is shown.
pub open spec fn enabled(status: Status) -> bool {
    status.state@ == "Enabled"@
}

impl Status {
    /// Whether the state is exactly `Enabled`.
    pub fn is_enabled(&self) -> (b: bool)
        ensures
            b == enabled(*self),
    {
        self.state == String::from_str("Enabled")
    }
}

} // verus!
