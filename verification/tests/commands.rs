use idrac_cli::chassis::{chassis_info_request, get_chassis_info};
use idrac_cli::idrac::{get_idrac_version, idrac_version_request};
use idrac_cli::listing::{
    list_members, push_bullets, push_line, push_names, push_short_names, push_status, shorten,
};
use idrac_cli::model::{
    Chassis, ChassisInfo, DiskInfo, Drives, Links, MemberList, Reference, Settings, Status,
    StorageController, StorageControllerInfo, StorageVolumeInfo, VersionData, Volume,
};
use idrac_cli::request::{get, undecodable, TIMEOUT_SECONDS};
use idrac_cli::storage::{
    get_storage_controller, get_storage_controller_request, get_storage_disk,
    get_storage_disk_request, get_storage_volume, get_storage_volume_request,
    list_storage_controllers, list_storage_controllers_request, list_storage_volumes,
    list_storage_volumes_request, push_controller,
};

fn settings() -> Settings {
    Settings {
        host: "idrac.example".to_string(),
        user: "root".to_string(),
        password: "calvin".to_string(),
    }
}

fn status(health: &str, state: &str) -> Status {
    Status { health: health.to_string(), state: state.to_string() }
}

fn reference(path: &str) -> Reference {
    Reference { name: path.to_string() }
}

fn chassis(state: &str) -> ChassisInfo {
    ChassisInfo {
        indicator_led: "Lit".to_string(),
        manufacturer: "Dell Inc.".to_string(),
        model: "PowerEdge R640".to_string(),
        part_number: "0W23H8A03".to_string(),
        power_state: "On".to_string(),
        sku: "ABC1234".to_string(),
        serial_number: "CNIVC000180873".to_string(),
        status: status("OK", state),
    }
}

#[test]
fn get_builds_an_https_address_with_the_credentials() {
    let request = get(&settings(), "/redfish/v1/Chassis/System.Embedded.1");
    assert_eq!(request.url, "https://idrac.example/redfish/v1/Chassis/System.Embedded.1");
    assert_eq!(request.user, "root");
    assert_eq!(request.password, "calvin");
    assert_eq!(request.timeout_seconds, 30);
    assert_eq!(TIMEOUT_SECONDS, 30);
    assert!(request.accept_invalid_certs);
}

#[test]
fn get_does_not_escape_the_path() {
    let request = get(&settings(), "/a b/ä?x=1");
    assert_eq!(request.url, "https://idrac.example/a b/ä?x=1");
}

#[test]
fn undecodable_carries_the_detail() {
    assert_eq!(
        undecodable("missing field `Model`"),
        "Could not introspect the token. Error was:\n missing field `Model`"
    );
}

#[test]
fn idrac_version_asks_for_the_manager() {
    let request = idrac_version_request(&settings());
    assert_eq!(request.url, "https://idrac.example/redfish/v1/Managers/iDRAC.Embedded.1");
}

#[test]
fn idrac_version_is_one_line() {
    let lines = get_idrac_version(&VersionData { firmware_version: "4.40.00.00".to_string() });
    assert_eq!(lines, vec!["iDRAC firmware version: 4.40.00.00".to_string()]);
}

#[test]
fn chassis_info_asks_for_the_chassis() {
    let request = chassis_info_request(&settings());
    assert_eq!(request.url, "https://idrac.example/redfish/v1/Chassis/System.Embedded.1");
    assert_eq!(request.user, "root");
    assert_eq!(request.password, "calvin");
}

#[test]
fn chassis_info_shows_power_state_and_status_when_enabled() {
    let lines = get_chassis_info(&chassis("Enabled"));
    assert_eq!(
        lines,
        vec![
            "Indicator LED: Lit".to_string(),
            "Type:          Dell Inc. PowerEdge R640".to_string(),
            "Part number:   0W23H8A03".to_string(),
            "Serial number: CNIVC000180873".to_string(),
            "SKU:           ABC1234".to_string(),
            "Power state:   On".to_string(),
            "Status:        OK".to_string(),
        ]
    );
    assert!(lines.contains(&"Power state:   On".to_string()));
    assert!(lines.contains(&"Status:        OK".to_string()));
}

#[test]
fn chassis_info_omits_status_when_disabled() {
    let lines = get_chassis_info(&chassis("Disabled"));
    assert_eq!(lines.len(), 6);
    assert!(lines.contains(&"Power state:   On".to_string()));
    assert!(!lines.iter().any(|line| line.starts_with("Status:")));
}

#[test]
fn status_line_appears_only_for_enabled() {
    for state in ["Disabled", "Absent", "", "enabled", "ENABLED", "Enabled ", " Enabled", "Unknown"] {
        let mut lines: Vec<String> = vec!["kept".to_string()];
        push_status(&mut lines, "Status: ", &status("OK", state));
        assert_eq!(lines, vec!["kept".to_string()]);
        assert!(!status("OK", state).is_enabled());
    }
    let mut lines: Vec<String> = vec!["kept".to_string()];
    push_status(&mut lines, "Status: ", &status("Critical", "Enabled"));
    assert_eq!(lines, vec!["kept".to_string(), "Status: Critical".to_string()]);
    assert!(status("Critical", "Enabled").is_enabled());
}

#[test]
fn push_line_and_bullets_append_in_order() {
    let mut lines: Vec<String> = Vec::new();
    push_line(&mut lines, "head".to_string());
    push_bullets(&mut lines, "  * ", &vec!["a".to_string(), "b".to_string()]);
    push_bullets(&mut lines, "  * ", &Vec::new());
    assert_eq!(lines, vec!["head".to_string(), "  * a".to_string(), "  * b".to_string()]);
}

#[test]
fn shorten_leaves_the_trailing_identifier() {
    let short = shorten(
        &reference("/redfish/v1/Systems/System.Embedded.1/Storage/Drives/Disk.Bay.0"),
        "/redfish/v1/Systems/System.Embedded.1/Storage/Drives/",
    );
    assert_eq!(short, "Disk.Bay.0");
}

#[test]
fn push_names_and_short_names_keep_order_and_duplicates() {
    let references = vec![reference("/p/B"), reference("/p/A"), reference("/p/B")];
    let mut names: Vec<String> = Vec::new();
    push_names(&mut names, &references, "/p/");
    assert_eq!(names, vec!["B".to_string(), "A".to_string(), "B".to_string()]);
    let mut lines: Vec<String> = Vec::new();
    push_short_names(&mut lines, &references, "/p/");
    assert_eq!(lines, vec!["- B".to_string(), "- A".to_string(), "- B".to_string()]);
}

#[test]
fn list_members_counts_what_it_shows() {
    let mut members: Vec<Reference> = Vec::new();
    for n in 0..12 {
        members.push(reference(&format!("/things/T.{}", n)));
    }
    let list = MemberList { name: "Things".to_string(), members };
    let lines = list_members(&list, "thing", "/things/");
    assert_eq!(lines.len(), 13);
    assert_eq!(lines[0], "Found 12 thing(s):");
    for n in 0..12 {
        assert_eq!(lines[1 + n], format!("- T.{}", n));
    }
}

#[test]
fn list_members_of_an_empty_collection() {
    let list = MemberList { name: "Things".to_string(), members: Vec::new() };
    assert_eq!(list_members(&list, "thing", "/things/"), vec!["Found 0 thing(s):".to_string()]);
}

#[test]
fn list_storage_controllers_asks_for_storage() {
    let request = list_storage_controllers_request(&settings());
    assert_eq!(request.url, "https://idrac.example/redfish/v1/Systems/System.Embedded.1/Storage");
}

#[test]
fn list_storage_controllers_in_server_order() {
    let list = MemberList {
        name: "Storage Collection".to_string(),
        members: vec![
            reference("/redfish/v1/Systems/System.Embedded.1/Storage/RAID.Integrated.1-1"),
            reference("/redfish/v1/Systems/System.Embedded.1/Storage/AHCI.Embedded.2-1"),
        ],
    };
    assert_eq!(
        list_storage_controllers(&list),
        vec![
            "Found 2 storage controller(s):".to_string(),
            "- RAID.Integrated.1-1".to_string(),
            "- AHCI.Embedded.2-1".to_string(),
        ]
    );
}

#[test]
fn list_storage_volumes_asks_for_the_controllers_volumes() {
    let request = list_storage_volumes_request(&Some("RAID.Integrated.1-1".to_string()), &settings());
    assert_eq!(
        request.url,
        "https://idrac.example/redfish/v1/Systems/System.Embedded.1/Storage/RAID.Integrated.1-1/Volumes"
    );
}

#[test]
fn list_storage_volumes_in_server_order() {
    let list = MemberList {
        name: "/redfish/v1/Systems/System.Embedded.1/Storage/RAID.Integrated.1-1/Volumes".to_string(),
        members: vec![
            reference("/redfish/v1/Systems/System.Embedded.1/Storage/Volumes/Disk.Virtual.1:RAID.Integrated.1-1"),
            reference("/redfish/v1/Systems/System.Embedded.1/Storage/Volumes/Disk.Virtual.0:RAID.Integrated.1-1"),
        ],
    };
    assert_eq!(
        list_storage_volumes(&list),
        vec![
            "Found 2 storage volume(s):".to_string(),
            "- Disk.Virtual.1:RAID.Integrated.1-1".to_string(),
            "- Disk.Virtual.0:RAID.Integrated.1-1".to_string(),
        ]
    );
}

fn controller(state: &str) -> StorageController {
    StorageController {
        name: "/redfish/v1/Systems/System.Embedded.1/StorageControllers/RAID.Integrated.1-1".to_string(),
        firmware_version: "25.5.6.0009".to_string(),
        manufacturer: "DELL".to_string(),
        model: "PERC H730 Mini".to_string(),
        speed_gbps: 12,
        status: status("OK", state),
        controller_protocols: vec!["PCIe".to_string()],
        device_protocols: vec!["SAS".to_string(), "SATA".to_string()],
    }
}

#[test]
fn get_storage_controller_asks_for_the_controller() {
    let request = get_storage_controller_request(&Some("RAID.Integrated.1-1".to_string()), &settings());
    assert_eq!(
        request.url,
        "https://idrac.example/redfish/v1/Systems/System.Embedded.1/Storage/RAID.Integrated.1-1"
    );
}

#[test]
fn push_controller_shows_one_controller() {
    let mut lines: Vec<String> = Vec::new();
    push_controller(&mut lines, &controller("Absent"));
    assert_eq!(
        lines,
        vec![
            "- Name:             RAID.Integrated.1-1".to_string(),
            "  Firmware version: 25.5.6.0009".to_string(),
            "  Device type:      DELL PERC H730 Mini".to_string(),
            "  Speed:            12 Gbps".to_string(),
            "  Controller protocols:".to_string(),
            "    - PCIe".to_string(),
            "  Device protocols:".to_string(),
            "    - SAS".to_string(),
            "    - SATA".to_string(),
        ]
    );
}

#[test]
fn get_storage_controller_shows_controllers_then_drives() {
    let info = StorageControllerInfo {
        name: "PERC H730 Mini".to_string(),
        drives: vec![
            reference("/redfish/v1/Systems/System.Embedded.1/Storage/Drives/Disk.Bay.1:Enclosure.Internal.0-1"),
            reference("/redfish/v1/Systems/System.Embedded.1/Storage/Drives/Disk.Bay.0:Enclosure.Internal.0-1"),
        ],
        status: status("OK", "Enabled"),
        storage_controllers: vec![controller("Enabled")],
    };
    assert_eq!(
        get_storage_controller(&info),
        vec![
            "Device name: PERC H730 Mini".to_string(),
            "Storage controller:".to_string(),
            "- Name:             RAID.Integrated.1-1".to_string(),
            "  Firmware version: 25.5.6.0009".to_string(),
            "  Device type:      DELL PERC H730 Mini".to_string(),
            "  Speed:            12 Gbps".to_string(),
            "  Status: OK".to_string(),
            "  Controller protocols:".to_string(),
            "    - PCIe".to_string(),
            "  Device protocols:".to_string(),
            "    - SAS".to_string(),
            "    - SATA".to_string(),
            "Attached drives:".to_string(),
            "- Disk.Bay.1:Enclosure.Internal.0-1".to_string(),
            "- Disk.Bay.0:Enclosure.Internal.0-1".to_string(),
        ]
    );
}

#[test]
fn get_storage_controller_without_controllers_or_drives() {
    let info = StorageControllerInfo {
        name: "Empty".to_string(),
        drives: Vec::new(),
        status: status("OK", "Enabled"),
        storage_controllers: Vec::new(),
    };
    assert_eq!(
        get_storage_controller(&info),
        vec![
            "Device name: Empty".to_string(),
            "Storage controller:".to_string(),
            "Attached drives:".to_string(),
        ]
    );
}

fn volume(state: &str, encrypted: bool, capacity: u64) -> StorageVolumeInfo {
    StorageVolumeInfo {
        name: "Virtual Disk 0".to_string(),
        description: "Disk 0 on Integrated RAID Controller 1".to_string(),
        block_size_bytes: 512,
        capacity_bytes: capacity,
        encrypted,
        links: Drives {
            drives: vec![reference(
                "/redfish/v1/Systems/System.Embedded.1/Storage/Drives/Disk.Bay.0:Enclosure.Internal.0-1",
            )],
        },
        status: status("Warning", state),
        volume_type: "Mirrored".to_string(),
    }
}

#[test]
fn get_storage_volume_asks_for_the_volume() {
    let request = get_storage_volume_request(&Some("Disk.Virtual.0".to_string()), &settings());
    assert_eq!(
        request.url,
        "https://idrac.example/redfish/v1/Systems/System.Embedded.1/Storage/Volumes/Disk.Virtual.0"
    );
}

#[test]
fn get_storage_volume_shows_capacity_in_a_readable_unit() {
    assert_eq!(
        get_storage_volume(&volume("Enabled", false, 5_000_000_000)),
        vec![
            "Volume name: Virtual Disk 0".to_string(),
            "Description: Disk 0 on Integrated RAID Controller 1".to_string(),
            "Block size:  512 bytes".to_string(),
            "Capacity:    5.00 GB".to_string(),
            "Encrypted:   false".to_string(),
            "Status:      Warning".to_string(),
            "Drives:".to_string(),
            "- Disk.Bay.0:Enclosure.Internal.0-1".to_string(),
        ]
    );
}

#[test]
fn get_storage_volume_omits_status_when_absent() {
    let lines = get_storage_volume(&volume("Absent", true, 999));
    assert_eq!(
        lines,
        vec![
            "Volume name: Virtual Disk 0".to_string(),
            "Description: Disk 0 on Integrated RAID Controller 1".to_string(),
            "Block size:  512 bytes".to_string(),
            "Capacity:    999 B".to_string(),
            "Encrypted:   true".to_string(),
            "Drives:".to_string(),
            "- Disk.Bay.0:Enclosure.Internal.0-1".to_string(),
        ]
    );
}

#[test]
fn get_storage_disk_asks_for_the_drive() {
    let request = get_storage_disk_request(&Some("Disk.Bay.0".to_string()), &settings());
    assert_eq!(
        request.url,
        "https://idrac.example/redfish/v1/Systems/System.Embedded.1/Storage/Drives/Disk.Bay.0"
    );
}

#[test]
fn get_storage_disk_shows_every_field() {
    let disk = DiskInfo {
        block_size_bytes: 512,
        capable_speed_gbps: 12,
        capacity_bytes: 1000,
        description: "Disk 0".to_string(),
        failure_predicted: false,
        hotspare_type: "None".to_string(),
        links: Links {
            chassis: Chassis { name: "/c".to_string() },
            volumes: vec![Volume { name: "/v".to_string() }],
        },
        manufacturer: "M".to_string(),
        media_type: "HDD".to_string(),
        model: "X".to_string(),
        negotaited_speed_gbps: 6,
        protocol: "SAS".to_string(),
        rotation_speed_rpm: 7200,
        status: status("OK", "Enabled"),
    };
    assert_eq!(
        get_storage_disk(&disk),
        vec![
            "DiskInfo { block_size_bytes: 512, capable_speed_gbps: 12, capacity_bytes: 1000, \
             description: \"Disk 0\", failure_predicted: false, hotspare_type: \"None\", \
             links: Links { chassis: Chassis { name: \"/c\" }, volumes: [Volume { name: \"/v\" }] }, \
             manufacturer: \"M\", media_type: \"HDD\", model: \"X\", negotaited_speed_gbps: 6, \
             protocol: \"SAS\", rotation_speed_rpm: 7200, \
             status: Status { health: \"OK\", state: \"Enabled\" } }"
                .to_string()
        ]
    );
}
