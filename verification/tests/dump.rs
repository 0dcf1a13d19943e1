use idrac_cli::dump::{
    comma_join, field_of, flag_str, list_of, quote_all, quoted_field_of, quoted_list_of, struct_of,
};
use idrac_cli::model::{Chassis, DiskInfo, LinkCapability, Links, NetworkAdapterList, Status, Volume};
use idrac_cli::network::{write_capability, write_port};
use idrac_cli::storage::{write_disk, write_links, write_status};

fn strings(items: &[&str]) -> Vec<String> {
    items.iter().map(|s| s.to_string()).collect()
}

#[test]
fn comma_join_puts_commas_between_items() {
    assert_eq!(comma_join(&strings(&[])), "");
    assert_eq!(comma_join(&strings(&["a"])), "a");
    assert_eq!(comma_join(&strings(&["a", "b"])), "a, b");
    assert_eq!(comma_join(&strings(&["a", "", "c"])), "a, , c");
}

#[test]
fn list_of_puts_items_in_brackets() {
    assert_eq!(list_of(&strings(&[])), "[]");
    assert_eq!(list_of(&strings(&["1", "2", "3"])), "[1, 2, 3]");
}

#[test]
fn quote_all_quotes_each_text() {
    assert_eq!(quote_all(&strings(&["a", "b c", ""])), strings(&["\"a\"", "\"b c\"", "\"\""]));
    assert_eq!(quoted_list_of(&strings(&["a", "b"])), "[\"a\", \"b\"]");
    assert_eq!(quoted_list_of(&strings(&[])), "[]");
}

#[test]
fn quoted_field_escapes_as_debug_formatting_does() {
    assert_eq!(quoted_field_of("name", "plain"), "name: \"plain\"");
    assert_eq!(quoted_field_of("name", "a\"b"), "name: \"a\\\"b\"");
    assert_eq!(quoted_field_of("name", "a\\b"), "name: \"a\\\\b\"");
    assert_eq!(quoted_field_of("name", "a\nb\tc"), "name: \"a\\nb\\tc\"");
    assert_eq!(quoted_field_of("name", "Größe"), "name: \"Größe\"");
}

#[test]
fn field_and_struct_follow_the_notation() {
    assert_eq!(field_of("speed", "12"), "speed: 12");
    assert_eq!(struct_of("Point", &strings(&["x: 1", "y: 2"])), "Point { x: 1, y: 2 }");
    assert_eq!(flag_str(true), "true");
    assert_eq!(flag_str(false), "false");
}

fn port(addresses: &[&str], capabilities: Vec<LinkCapability>, wol: bool) -> NetworkAdapterList {
    NetworkAdapterList {
        technology: "Ethernet".to_string(),
        addresses: strings(addresses),
        link_status: "Up \"fast\"".to_string(),
        physical_port_number: "1".to_string(),
        supported_ethernet_capabilities: strings(&["WakeOnLAN", "EEE"]),
        supported_link_capabilities: capabilities,
        wol_enabled: wol,
    }
}

fn capability(technology: &str, speed: u64) -> LinkCapability {
    LinkCapability { technology: technology.to_string(), speed_mbps: speed }
}

#[test]
fn write_capability_shows_both_fields() {
    assert_eq!(
        write_capability(&capability("Ethernet", 25000)),
        "LinkCapability { technology: \"Ethernet\", speed_mbps: 25000 }"
    );
}

#[test]
fn write_port_is_the_debug_text_of_the_port() {
    let samples = vec![
        port(&[], Vec::new(), false),
        port(&["AA:BB"], vec![capability("Ethernet", 1000)], true),
        port(
            &["AA:BB", "CC:DD", "a\\b"],
            vec![capability("Ethernet", 0), capability("Fibre\nChannel", u64::MAX)],
            true,
        ),
    ];
    for sample in samples {
        assert_eq!(write_port(&sample), format!("{:?}", sample));
    }
}

fn disk(volumes: &[&str], failing: bool) -> DiskInfo {
    DiskInfo {
        block_size_bytes: 512,
        capable_speed_gbps: 12,
        capacity_bytes: 1_199_638_052_864,
        description: "Disk 0 in Backplane 1".to_string(),
        failure_predicted: failing,
        hotspare_type: "None".to_string(),
        links: Links {
            chassis: Chassis { name: "/redfish/v1/Chassis/Enclosure.Internal.0-1".to_string() },
            volumes: volumes.iter().map(|v| Volume { name: v.to_string() }).collect(),
        },
        manufacturer: "SEAGATE".to_string(),
        media_type: "HDD".to_string(),
        model: "ST1200MM0099".to_string(),
        negotaited_speed_gbps: 6,
        protocol: "SAS".to_string(),
        rotation_speed_rpm: 10000,
        status: Status { health: "OK".to_string(), state: "Enabled".to_string() },
    }
}

#[test]
fn write_status_shows_both_fields() {
    assert_eq!(
        write_status(&Status { health: "OK".to_string(), state: "Absent".to_string() }),
        "Status { health: \"OK\", state: \"Absent\" }"
    );
}

#[test]
fn write_links_shows_chassis_and_volumes() {
    let links = Links {
        chassis: Chassis { name: "/c".to_string() },
        volumes: vec![Volume { name: "/v0".to_string() }, Volume { name: "/v1".to_string() }],
    };
    assert_eq!(
        write_links(&links),
        "Links { chassis: Chassis { name: \"/c\" }, volumes: [Volume { name: \"/v0\" }, Volume { name: \"/v1\" }] }"
    );
}

#[test]
fn write_disk_is_the_debug_text_of_the_drive() {
    let samples = vec![
        disk(&[], false),
        disk(&["/redfish/v1/Systems/System.Embedded.1/Storage/Volumes/Disk.Virtual.0"], true),
        disk(&["/a", "/b", "\"c\""], false),
    ];
    for sample in samples {
        assert_eq!(write_disk(&sample), format!("{:?}", sample));
    }
}
