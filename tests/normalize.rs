use cyberguardian::models::{evidence_for, Evidence};
use cyberguardian::normalize::{normalize_nmap, NmapHost, NmapPort, NmapRun};

fn port(portid: u16, protocol: &str, state: &str, service: Option<&str>) -> NmapPort {
    NmapPort {
        portid,
        protocol: protocol.to_string(),
        state: state.to_string(),
        service: service.map(|s| s.to_string()),
    }
}

fn host(addr: &str, hostnames: &[&str], ports: Vec<NmapPort>) -> NmapHost {
    NmapHost {
        addr: addr.to_string(),
        hostnames: hostnames.iter().map(|h| h.to_string()).collect(),
        ports,
    }
}

fn sample_run() -> NmapRun {
    NmapRun {
        hosts: vec![host(
            "192.168.1.10",
            &["router.local"],
            vec![port(80, "tcp", "open", Some("http")), port(22, "tcp", "closed", Some("ssh"))],
        )],
    }
}

#[test]
fn parse_nmap_xml_extracts_assets_and_open_ports() {
    let scan = normalize_nmap(&sample_run());
    assert_eq!(scan.assets.len(), 1);
    assert_eq!(scan.services.len(), 1);
    assert_eq!(scan.findings.len(), 1);
    assert_eq!(scan.assets[0].ip, "192.168.1.10");
    assert_eq!(scan.services[0].port, 80);
}

#[test]
fn normalization_creates_evidence_per_finding() {
    let scan = normalize_nmap(&sample_run());
    assert_eq!(scan.findings.len(), scan.evidence.len());
    assert!(scan.evidence[0].raw.contains("open tcp 80"));
}

#[test]
fn single_open_port_yields_one_of_each() {
    let run = NmapRun { hosts: vec![host("10.1.2.3", &[], vec![port(80, "tcp", "open", None)])] };
    let scan = normalize_nmap(&run);
    assert_eq!(scan.assets.len(), 1);
    assert_eq!(scan.assets[0].hostname, None);
    assert_eq!(scan.services.len(), 1);
    assert_eq!(scan.services[0].protocol, "tcp");
    assert_eq!(scan.services[0].service_name, None);
    assert_eq!(scan.findings.len(), 1);
    assert_eq!(scan.findings[0].key, "10.1.2.3:80");
    assert_eq!(scan.findings[0].severity, "info");
    assert_eq!(scan.findings[0].title, "Open port 80");
    assert_eq!(scan.findings[0].description, "Service exposé détecté par Nmap");
    assert_eq!(scan.evidence.len(), 1);
    assert_eq!(scan.evidence[0].finding_key, "10.1.2.3:80");
    assert_eq!(scan.evidence[0].raw, "open tcp 80");
}

#[test]
fn host_without_open_ports_yields_only_asset() {
    let run = NmapRun {
        hosts: vec![host(
            "10.0.0.9",
            &["a.local", "b.local"],
            vec![port(443, "tcp", "filtered", None), port(53, "udp", "closed", None), port(25, "tcp", "Open", None)],
        )],
    };
    let scan = normalize_nmap(&run);
    assert_eq!(scan.assets.len(), 1);
    assert_eq!(scan.assets[0].hostname.as_deref(), Some("a.local"));
    assert!(scan.services.is_empty());
    assert!(scan.findings.is_empty());
    assert!(scan.evidence.is_empty());
}

#[test]
fn host_with_no_ports_at_all() {
    let run = NmapRun { hosts: vec![host("10.0.0.10", &[], vec![])] };
    let scan = normalize_nmap(&run);
    assert_eq!(scan.assets.len(), 1);
    assert!(scan.services.is_empty());
}

#[test]
fn empty_report_yields_nothing() {
    let scan = normalize_nmap(&NmapRun { hosts: vec![] });
    assert!(scan.assets.is_empty());
    assert!(scan.findings.is_empty());
}

#[test]
fn several_hosts_keep_order_and_pair_keys() {
    let run = NmapRun {
        hosts: vec![
            host("10.0.0.1", &[], vec![port(22, "tcp", "open", Some("ssh")), port(65535, "udp", "open", None)]),
            host("10.0.0.2", &["two"], vec![port(8080, "tcp", "open", Some("http-proxy"))]),
        ],
    };
    let scan = normalize_nmap(&run);
    assert_eq!(scan.assets.len(), 2);
    assert_eq!(scan.assets[1].ip, "10.0.0.2");
    let keys: Vec<&str> = scan.findings.iter().map(|f| f.key.as_str()).collect();
    assert_eq!(keys, vec!["10.0.0.1:22", "10.0.0.1:65535", "10.0.0.2:8080"]);
    let ev: Vec<&str> = scan.evidence.iter().map(|e| e.finding_key.as_str()).collect();
    assert_eq!(ev, keys);
    assert_eq!(scan.evidence[1].raw, "open udp 65535");
    assert_eq!(scan.services[2].service_name.as_deref(), Some("http-proxy"));
    assert_eq!(scan.findings[2].title, "Open port 8080");
}

#[test]
fn port_zero_renders_as_zero() {
    let run = NmapRun { hosts: vec![host("h", &[], vec![port(0, "tcp", "open", None)])] };
    let scan = normalize_nmap(&run);
    assert_eq!(scan.findings[0].key, "h:0");
}

#[test]
fn evidence_is_found_by_key_not_position() {
    let ev = vec![
        Evidence { finding_key: "a:1".into(), raw: "open tcp 1".into() },
        Evidence { finding_key: "b:2".into(), raw: "open tcp 2".into() },
        Evidence { finding_key: "b:2".into(), raw: "second".into() },
    ];
    assert_eq!(evidence_for(&ev, "b:2"), Some(1));
    assert_eq!(evidence_for(&ev, "a:1"), Some(0));
    assert_eq!(evidence_for(&ev, "c:3"), None);
    assert_eq!(evidence_for(&vec![], "a:1"), None);
}
