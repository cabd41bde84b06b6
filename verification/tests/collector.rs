use endpoint_assessment::collector::{
    cap_processes, collect_open_ports, collect_snapshot, disk_totals, get_ip_addresses,
    is_port_in_use, is_reportable, or_unknown, samples_well_known_ports, well_known_ports,
    DiskReading, HostReadings, PortProbe, PROCESS_LIMIT,
};
use endpoint_assessment::models::ProcessInfo;

fn process(pid: u32) -> ProcessInfo {
    ProcessInfo {
        pid,
        name: format!("p{}", pid),
        cpu_usage_bits: 1.5f32.to_bits(),
        memory_bytes: 10,
    }
}

fn addresses(list: &[&str]) -> Vec<String> {
    list.iter().map(|s| s.to_string()).collect()
}

#[test]
fn unknown_stands_for_a_name_that_is_not_told() {
    assert_eq!(or_unknown(None), "unknown");
    assert_eq!(or_unknown(Some("box".to_string())), "box");
    assert_eq!(or_unknown(Some(String::new())), "");
}

#[test]
fn the_sampled_ports_are_fixed() {
    assert_eq!(
        well_known_ports(),
        vec![22, 80, 443, 3306, 5432, 8080, 8443, 3000, 5000, 6379, 27017]
    );
}

#[test]
fn open_ports_are_those_that_could_not_be_bound() {
    let probes = vec![
        PortProbe { port: 22, bind_succeeded: false },
        PortProbe { port: 80, bind_succeeded: true },
        PortProbe { port: 443, bind_succeeded: false },
    ];
    assert_eq!(collect_open_ports(&probes), vec![22, 443]);
    assert!(is_port_in_use(&probes[0]));
    assert!(!is_port_in_use(&probes[1]));
    assert!(collect_open_ports(&vec![]).is_empty());
}

#[test]
fn disk_totals_add_up() {
    let disks = vec![
        DiskReading { total_space: 100, available_space: 40 },
        DiskReading { total_space: 50, available_space: 50 },
        DiskReading { total_space: 10, available_space: 0 },
    ];
    assert_eq!(disk_totals(&disks), (160, 70));
    assert_eq!(disk_totals(&vec![]), (0, 0));
}

#[test]
fn disk_totals_stay_within_their_fields() {
    let disks = vec![
        DiskReading { total_space: u64::MAX, available_space: 1 },
        DiskReading { total_space: 5, available_space: 9 },
        DiskReading { total_space: 7, available_space: 0 },
    ];
    assert_eq!(disk_totals(&disks), (u64::MAX, u64::MAX));
    let odd = vec![DiskReading { total_space: 5, available_space: 9 }];
    assert_eq!(disk_totals(&odd), (5, 0));
}

#[test]
fn a_snapshot_holds_at_most_a_hundred_processes() {
    assert_eq!(PROCESS_LIMIT, 100);
    let many: Vec<ProcessInfo> = (0..250).map(process).collect();
    let kept = cap_processes(many);
    assert_eq!(kept.len(), 100);
    assert_eq!(kept[0].pid, 0);
    assert_eq!(kept[99].pid, 99);
    let exact: Vec<ProcessInfo> = (0..100).map(process).collect();
    assert_eq!(cap_processes(exact).len(), 100);
    let few: Vec<ProcessInfo> = (0..3).map(process).collect();
    assert_eq!(cap_processes(few).len(), 3);
}

#[test]
fn loopback_addresses_are_not_reported() {
    assert!(!is_reportable("127.0.0.1"));
    assert!(!is_reportable("127.1.2.3"));
    assert!(!is_reportable("127.255.255.254"));
    assert!(!is_reportable("::1"));
    assert!(is_reportable("12.7.0.1"));
    assert!(is_reportable("128.0.0.1"));
    assert!(is_reportable("1.127.0.1"));
    assert!(is_reportable("::2"));
    assert!(is_reportable("::1:0"));
    assert!(is_reportable(""));
}

#[test]
fn link_local_addresses_are_not_reported() {
    assert!(!is_reportable("169.254.1.5"));
    assert!(!is_reportable("169.254.0.0"));
    assert!(!is_reportable("fe80::1"));
    assert!(!is_reportable("fe80::1ff:fe23:4567:890a"));
    assert!(!is_reportable("FE80::1"));
    assert!(!is_reportable("fe90::1"));
    assert!(!is_reportable("feaf:1::2"));
    assert!(!is_reportable("febf:ffff::"));
    assert!(!is_reportable("FeB0::"));
    assert!(is_reportable("169.253.1.5"));
    assert!(is_reportable("169.25.4.1"));
    assert!(is_reportable("10.169.254.1"));
    assert!(is_reportable("fec0::1"));
    assert!(is_reportable("fe7f::1"));
    assert!(is_reportable("fe8::1"));
    assert!(is_reportable("fe80"));
    assert!(is_reportable("fe8g::1"));
    assert!(is_reportable("10.0.0.5"));
    assert!(is_reportable("2001:db8::1"));
}

#[test]
fn reported_addresses_are_sorted_and_unique() {
    let raw = addresses(&[
        "192.168.1.7",
        "127.0.0.1",
        "10.0.0.5",
        "fe80::1",
        "192.168.1.7",
        "::1",
        "10.0.0.5",
        "2001:db8::1",
    ]);
    assert_eq!(get_ip_addresses(&raw), addresses(&["10.0.0.5", "192.168.1.7", "2001:db8::1"]));
    let mixed = addresses(&["127.0.0.1", "169.254.1.5", "fe80::1", "10.0.0.7"]);
    assert_eq!(get_ip_addresses(&mixed), addresses(&["10.0.0.7"]));
    assert!(get_ip_addresses(&addresses(&["127.0.0.1"])).is_empty());
    assert!(get_ip_addresses(&vec![]).is_empty());
}

#[test]
fn snapshot_is_made_of_the_readings() {
    let readings = HostReadings {
        cpu_usage_bits: 12.5f32.to_bits(),
        memory_total: 16_000,
        memory_used: 9_000,
        disks: vec![DiskReading { total_space: 500, available_space: 125 }],
        processes: (0..120).map(process).collect(),
        port_probes: vec![
            PortProbe { port: 22, bind_succeeded: false },
            PortProbe { port: 80, bind_succeeded: true },
        ],
    };
    let s = collect_snapshot(readings, 1234);
    assert_eq!(s.collected_at, 1234);
    assert_eq!(f32::from_bits(s.cpu_usage_bits), 12.5);
    assert_eq!(s.memory_total, 16_000);
    assert_eq!(s.memory_used, 9_000);
    assert_eq!(s.disk_total, 500);
    assert_eq!(s.disk_used, 375);
    assert_eq!(s.processes.len(), 100);
    assert_eq!(s.open_ports, vec![22]);
    assert!(s.installed_software.is_empty());
    let snapshot = s.into_snapshot(9);
    assert_eq!(snapshot.endpoint_id, 9);
    assert_eq!(snapshot.disk_used, 375);
    assert_eq!(snapshot.processes.len(), 100);
}

#[test]
fn probes_of_the_sampled_ports_are_told_apart() {
    let sampled: Vec<PortProbe> = well_known_ports()
        .into_iter()
        .map(|port| PortProbe { port, bind_succeeded: port % 2 == 0 })
        .collect();
    assert!(samples_well_known_ports(&sampled));
    let open = collect_open_ports(&sampled);
    assert_eq!(open, vec![443, 8443, 6379, 27017]);
    assert!(open.iter().all(|port| well_known_ports().contains(port)));

    let mut short = well_known_ports();
    short.pop();
    let short: Vec<PortProbe> =
        short.into_iter().map(|port| PortProbe { port, bind_succeeded: false }).collect();
    assert!(!samples_well_known_ports(&short));
    let mut other: Vec<PortProbe> = well_known_ports()
        .into_iter()
        .map(|port| PortProbe { port, bind_succeeded: false })
        .collect();
    other[3].port = 3307;
    assert!(!samples_well_known_ports(&other));
    assert!(!samples_well_known_ports(&vec![]));
}
