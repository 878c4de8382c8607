use cyberguardian::adapters::{sample_nmap_xml_for_target, NmapAdapter, ScanRequest, Tool, ToolAdapter, ZapAdapter};
use cyberguardian::sandbox::{finish_command, plan_command, ProcessOutcome, ToolError};

#[test]
fn command_outside_allowlist_is_refused() {
    let r = plan_command("rm", vec!["-rf".to_string(), "/".to_string()], vec!["echo".to_string()], 10);
    match r {
        Err(ToolError::CommandNotAllowed(c)) => assert_eq!(c, "rm"),
        other => panic!("unexpected {:?}", other),
    }
}

#[test]
fn listed_command_is_cleared() {
    let plan = plan_command("echo", vec!["hi".to_string()], vec!["ls".to_string(), "echo".to_string()], 7).unwrap();
    assert_eq!(plan.program(), "echo");
    assert_eq!(plan.args(), &vec!["hi".to_string()]);
    assert_eq!(plan.timeout_secs(), 7);
    assert_eq!(plan.allowlist().len(), 2);
}

#[test]
fn empty_allowlist_refuses() {
    assert!(matches!(plan_command("echo", vec![], vec![], 1), Err(ToolError::CommandNotAllowed(_))));
}

#[test]
fn process_outcomes_are_read() {
    let ok = finish_command(ProcessOutcome::Exited { success: true, stdout: "out".into(), stderr: "err".into() });
    assert_eq!(ok.unwrap(), "out");
    match finish_command(ProcessOutcome::Exited { success: false, stdout: "out".into(), stderr: "boom".into() }) {
        Err(ToolError::ProcessFailure(e)) => assert_eq!(e, "boom"),
        other => panic!("unexpected {:?}", other),
    }
    assert!(matches!(finish_command(ProcessOutcome::TimedOut), Err(ToolError::Timeout)));
    match finish_command(ProcessOutcome::SpawnFailed("missing".into())) {
        Err(ToolError::SpawnFailure(e)) => assert_eq!(e, "missing"),
        other => panic!("unexpected {:?}", other),
    }
}

#[test]
fn registry_knows_six_tools() {
    for name in ["nmap", "nuclei", "zap", "nikto", "ffuf", "amass"] {
        let t = Tool::from_name(name).unwrap();
        assert_eq!(t.name(), name);
    }
    assert_eq!(Tool::from_name("NMAP"), None);
    assert_eq!(Tool::from_name("masscan"), None);
}

#[test]
fn unsupported_tool_fails_explicitly() {
    let req = ScanRequest { target: "127.0.0.1".into(), profile: "safe".into() };
    match ZapAdapter.invocation(&req) {
        Err(ToolError::ToolNotSupported(n)) => assert_eq!(n, "zap"),
        other => panic!("unexpected {:?}", other),
    }
    assert_eq!(ZapAdapter.tool(), Tool::Zap);
}

#[test]
fn nmap_adapter_echoes_sample_report() {
    let req = ScanRequest { target: "127.0.0.1".into(), profile: "safe".into() };
    let plan = NmapAdapter.invocation(&req).unwrap();
    assert_eq!(plan.program(), "echo");
    assert_eq!(plan.args().len(), 1);
    assert!(plan.args()[0].contains("addr=\"127.0.0.1\""));
    assert_eq!(NmapAdapter.name(), "nmap");
}

#[test]
fn sample_report_has_target() {
    let xml = sample_nmap_xml_for_target("10.9.8.7");
    assert!(xml.starts_with("<nmaprun><host><address addr=\"10.9.8.7\"/>"));
    assert!(xml.ends_with("</nmaprun>"));
    assert!(xml.contains("portid=\"80\""));
}
