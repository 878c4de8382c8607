//! Normalization of nmap scan reports into the common data model.
use crate::models::{
    assets_view, clone_opt, evidence_view, findings_view, opt_view, services_view, Asset, AssetView,
    Evidence, EvidenceView, Finding, FindingView, NormalizedScan, NormalizedScanView, Service,
    ServiceView,
};
use crate::text::{decimal, decimal_of, digits_of, same_text};
use vstd::prelude::*;
use vstd::string::StringExecFns;

verus! {

/// One port entry of an nmap host.
#[derive(Clone, Debug)]
pub struct NmapPort {
    pub portid: u16,
    pub protocol: String,
    /// The reported state, such as `open`, `closed` or `filtered`.
    pub state: String,
    pub service: Option<String>,
}

/// One host of an nmap report.
#[derive(Clone, Debug)]
pub struct NmapHost {
    pub addr: String,
    /// The declared host names, in document order.
    pub hostnames: Vec<String>,
    pub ports: Vec<NmapPort>,
}

/// An nmap report: its hosts in document order.
#[derive(Clone, Debug)]
pub struct NmapRun {
    pub hosts: Vec<NmapHost>,
}

pub struct NmapPortView {
    pub portid: u16,
    pub protocol: Seq<char>,
    pub state: Seq<char>,
    pub service: Option<Seq<char>>,
}

pub struct NmapHostView {
    pub addr: Seq<char>,
    pub hostnames: Seq<Seq<char>>,
    pub ports: Seq<NmapPortView>,
}

impl View for NmapPort {
    type V = NmapPortView;

    open spec fn view(&self) -> NmapPortView {
        NmapPortView {
            portid: self.portid,
            protocol: self.protocol@,
            state: self.state@,
            service: opt_view(self.service),
        }
    }
}

impl View for NmapHost {
    type V = NmapHostView;

    open spec fn view(&self) -> NmapHostView {
        NmapHostView {
            addr: self.addr@,
            hostnames: self.hostnames@.map_values(|h: String| h@),
            ports: self.ports@.map_values(|p: NmapPort| p@),
        }
    }
}

impl View for NmapRun {
    type V = Seq<NmapHostView>;

    open spec fn view(&self) -> Seq<NmapHostView> {
        self.hosts@.map_values(|h: NmapHost| h@)
    }
}

/// Severity given to every open-port finding.
pub open spec fn info_severity() -> Seq<char> {
    "info"@
}

pub open spec fn open_port_description() -> Seq<char> {
    "Service exposé détecté par Nmap"@
}

pub open spec fn is_open(p: NmapPortView) -> bool {
    p.state == "open"@
}

/// The key of the finding for port `port` of host `ip`: `ip:port`.
pub open spec fn finding_key(ip: Seq<char>, port: u16) -> Seq<char> {
    ip + ":"@ + decimal_of(port as int)
}

pub open spec fn asset_of(h: NmapHostView) -> AssetView {
    AssetView {
        hostname: if h.hostnames.len() > 0 { Some(h.hostnames[0]) } else { None },
        ip: h.addr,
    }
}

pub open spec fn service_of(ip: Seq<char>, p: NmapPortView) -> ServiceView {
    ServiceView { ip, port: p.portid, protocol: p.protocol, service_name: p.service }
}

pub open spec fn finding_of(ip: Seq<char>, p: NmapPortView) -> FindingView {
    FindingView {
        key: finding_key(ip, p.portid),
        severity: info_severity(),
        title: "Open port "@ + decimal_of(p.portid as int),
        description: open_port_description(),
    }
}

pub open spec fn evidence_of(ip: Seq<char>, p: NmapPortView) -> EvidenceView {
    EvidenceView {
        finding_key: finding_key(ip, p.portid),
        raw: "open "@ + p.protocol + " "@ + decimal_of(p.portid as int),
    }
}

/// The services of the open ports among `ports` of host `ip`, in order.
pub open spec fn port_services(ip: Seq<char>, ports: Seq<NmapPortView>) -> Seq<ServiceView>
    decreases ports.len(),
{
    if ports.len() == 0 {
        Seq::empty()
    } else {
        let prev = port_services(ip, ports.drop_last());
        if is_open(ports.last()) { prev.push(service_of(ip, ports.last())) } else { prev }
    }
}

/// The findings of the open ports among `ports` of host `ip`, in order.
pub open spec fn port_findings(ip: Seq<char>, ports: Seq<NmapPortView>) -> Seq<FindingView>
    decreases ports.len(),
{
    if ports.len() == 0 {
        Seq::empty()
    } else {
        let prev = port_findings(ip, ports.drop_last());
        if is_open(ports.last()) { prev.push(finding_of(ip, ports.last())) } else { prev }
    }
}

/// The evidence of the open ports among `ports` of host `ip`, in order.
pub open spec fn port_evidence(ip: Seq<char>, ports: Seq<NmapPortView>) -> Seq<EvidenceView>
    decreases ports.len(),
{
    if ports.len() == 0 {
        Seq::empty()
    } else {
        let prev = port_evidence(ip, ports.drop_last());
        if is_open(ports.last()) { prev.push(evidence_of(ip, ports.last())) } else { prev }
    }
}

pub open spec fn scan_services(hosts: Seq<NmapHostView>) -> Seq<ServiceView>
    decreases hosts.len(),
{
    if hosts.len() == 0 {
        Seq::empty()
    } else {
        scan_services(hosts.drop_last()) + port_services(hosts.last().addr, hosts.last().ports)
    }
}

pub open spec fn scan_findings(hosts: Seq<NmapHostView>) -> Seq<FindingView>
    decreases hosts.len(),
{
    if hosts.len() == 0 {
        Seq::empty()
    } else {
        scan_findings(hosts.drop_last()) + port_findings(hosts.last().addr, hosts.last().ports)
    }
}

pub open spec fn scan_evidence(hosts: Seq<NmapHostView>) -> Seq<EvidenceView>
    decreases hosts.len(),
{
    if hosts.len() == 0 {
        Seq::empty()
    } else {
        scan_evidence(hosts.drop_last()) + port_evidence(hosts.last().addr, hosts.last().ports)
    }
}

/// The normalized form of a report: one asset per host; one service, one
/// finding and one evidence record per open port; nothing for other ports.
pub open spec fn normalized(hosts: Seq<NmapHostView>) -> NormalizedScanView {
    NormalizedScanView {
        assets: hosts.map_values(|h: NmapHostView| asset_of(h)),
        services: scan_services(hosts),
        findings: scan_findings(hosts),
        evidence: scan_evidence(hosts),
    }
}

/// Builds the key `ip:port`.
fn key_for(ip: &String, port: u16) -> (r: String)
    ensures
        r@ == finding_key(ip@, port),
{
    let mut key = ip.clone();
    key.append(":");
    key.append(decimal(port as i64).as_str());
    key
}

/// Normalizes an nmap report.
///
/// Each host yields one asset, named by its first declared host name if any.
/// Each port of a host whose state is exactly `open` yields one service, one
/// informational finding keyed `ip:port` and one evidence record with that
/// key whose raw text reads `open <protocol> <port>`.
pub fn normalize_nmap(run: &NmapRun) -> (scan: NormalizedScan)
    ensures
        scan@ == normalized(run@),
{
    let mut scan = NormalizedScan::empty();
    let ghost hosts = run@;
    let mut i: usize = 0;
    while i < run.hosts.len()
        invariant
            i <= run.hosts.len(),
            hosts == run@,
            hosts.len() == run.hosts@.len(),
            scan@.assets == hosts.take(i as int).map_values(|h: NmapHostView| asset_of(h)),
            scan@.services == scan_services(hosts.take(i as int)),
            scan@.findings == scan_findings(hosts.take(i as int)),
            scan@.evidence == scan_evidence(hosts.take(i as int)),
        decreases run.hosts.len() - i,
    {
        let host = &run.hosts[i];
        let ghost hv = host@;
        assert(hv == hosts[i as int]);
        let hostname = if host.hostnames.len() > 0 {
            let h = host.hostnames[0].clone();
            assert(h@ == hv.hostnames[0]);
            Some(h)
        } else {
            None
        };
        assert(opt_view(hostname) == asset_of(hv).hostname);
        let ghost assets0 = scan.assets@;
        scan.assets.push(Asset { hostname, ip: host.addr.clone() });
        assert(assets_view(scan.assets@) =~= assets_view(assets0).push(asset_of(hv)));
        assert(hosts.take(i + 1).drop_last() =~= hosts.take(i as int));
        assert(hosts.take(i + 1).map_values(|h: NmapHostView| asset_of(h)) =~= hosts.take(
            i as int,
        ).map_values(|h: NmapHostView| asset_of(h)).push(asset_of(hv)));
        let ghost services0 = scan@.services;
        let ghost findings0 = scan@.findings;
        let ghost evidence0 = scan@.evidence;
        let mut j: usize = 0;
        while j < host.ports.len()
            invariant
                j <= host.ports.len(),
                hv == host@,
                hv.ports.len() == host.ports@.len(),
                scan@.assets == hosts.take(i + 1).map_values(|h: NmapHostView| asset_of(h)),
                scan@.services == services0 + port_services(hv.addr, hv.ports.take(j as int)),
                scan@.findings == findings0 + port_findings(hv.addr, hv.ports.take(j as int)),
                scan@.evidence == evidence0 + port_evidence(hv.addr, hv.ports.take(j as int)),
            decreases host.ports.len() - j,
        {
            let p = &host.ports[j];
            assert(p@ == hv.ports[j as int]);
            assert(hv.ports.take(j + 1).drop_last() =~= hv.ports.take(j as int));
            assert(hv.ports.take(j + 1).last() == p@);
            if same_text(p.state.as_str(), "open") {
                let ghost s0 = scan.services@;
                let ghost f0 = scan.findings@;
                let ghost e0 = scan.evidence@;
                scan.services.push(
                    Service {
                        ip: host.addr.clone(),
                        port: p.portid,
                        protocol: p.protocol.clone(),
                        service_name: clone_opt(&p.service),
                    },
                );
                let key = key_for(&host.addr, p.portid);
                let mut title = String::from_str("Open port ");
                title.append(decimal(p.portid as i64).as_str());
                scan.findings.push(
                    Finding {
                        key: key.clone(),
                        severity: String::from_str("info"),
                        title,
                        description: String::from_str("Service exposé détecté par Nmap"),
                    },
                );
                let mut raw = String::from_str("open ");
                raw.append(p.protocol.as_str());
                raw.append(" ");
                raw.append(decimal(p.portid as i64).as_str());
                scan.evidence.push(Evidence { finding_key: key, raw });
                assert(services_view(scan.services@) =~= services_view(s0).push(service_of(hv.addr, p@)));
                assert(findings_view(scan.findings@) =~= findings_view(f0).push(finding_of(hv.addr, p@)));
                assert(evidence_view(scan.evidence@) =~= evidence_view(e0).push(evidence_of(hv.addr, p@)));
            }
            j = j + 1;
        }
        assert(hv.ports.take(hv.ports.len() as int) =~= hv.ports);
        assert(hosts.take(i + 1).last() == hv);
        i = i + 1;
    }
    assert(hosts.take(hosts.len() as int) =~= hosts);
    scan
}

} // verus!

verus! {

proof fn lemma_port_pairs(ip: Seq<char>, ports: Seq<NmapPortView>)
    ensures
        port_findings(ip, ports).len() == port_evidence(ip, ports).len(),
        port_findings(ip, ports).len() == port_services(ip, ports).len(),
        forall|i: int|
            0 <= i < port_findings(ip, ports).len() ==> #[trigger] port_evidence(ip, ports)[i].finding_key
                == port_findings(ip, ports)[i].key,
    decreases ports.len(),
{
    if ports.len() > 0 {
        lemma_port_pairs(ip, ports.drop_last());
    }
}

/// Findings and evidence of a normalized report pair up one to one, by key:
/// the evidence at each position carries the key of the finding at the same
/// position, and there are as many of each as there are services.
pub proof fn lemma_evidence_pairs(hosts: Seq<NmapHostView>)
    ensures
        normalized(hosts).findings.len() == normalized(hosts).evidence.len(),
        normalized(hosts).findings.len() == normalized(hosts).services.len(),
        forall|i: int|
            0 <= i < normalized(hosts).findings.len() ==> #[trigger] normalized(hosts).evidence[i].finding_key
                == normalized(hosts).findings[i].key,
    decreases hosts.len(),
{
    if hosts.len() > 0 {
        let prev = hosts.drop_last();
        lemma_evidence_pairs(prev);
        lemma_port_pairs(hosts.last().addr, hosts.last().ports);
        let f = scan_findings(hosts);
        let e = scan_evidence(hosts);
        let n = scan_findings(prev).len();
        assert forall|i: int| 0 <= i < f.len() implies #[trigger] e[i].finding_key == f[i].key by {
            if i >= n {
                assert(e[i] == port_evidence(hosts.last().addr, hosts.last().ports)[i - n]);
                assert(f[i] == port_findings(hosts.last().addr, hosts.last().ports)[i - n]);
            } else {
                assert(e[i] == scan_evidence(prev)[i]);
                assert(f[i] == scan_findings(prev)[i]);
            }
        }
    }
}

proof fn lemma_closed_ports(ip: Seq<char>, ports: Seq<NmapPortView>)
    requires
        forall|i: int| 0 <= i < ports.len() ==> !is_open(#[trigger] ports[i]),
    ensures
        port_services(ip, ports).len() == 0,
        port_findings(ip, ports).len() == 0,
        port_evidence(ip, ports).len() == 0,
    decreases ports.len(),
{
    if ports.len() > 0 {
        let prev = ports.drop_last();
        assert forall|i: int| 0 <= i < prev.len() implies !is_open(#[trigger] prev[i]) by {
            assert(prev[i] == ports[i]);
        }
        assert(!is_open(ports[ports.len() - 1]));
        lemma_closed_ports(ip, prev);
    }
}

/// A host none of whose ports is open yields its asset and nothing else.
pub proof fn lemma_host_without_open_ports(h: NmapHostView)
    requires
        forall|i: int| 0 <= i < h.ports.len() ==> !is_open(#[trigger] h.ports[i]),
    ensures
        normalized(seq![h]).assets.len() == 1,
        normalized(seq![h]).assets[0] == asset_of(h),
        normalized(seq![h]).services.len() == 0,
        normalized(seq![h]).findings.len() == 0,
        normalized(seq![h]).evidence.len() == 0,
{
    lemma_closed_ports(h.addr, h.ports);
    assert(seq![h].drop_last() =~= Seq::<NmapHostView>::empty());
    assert(seq![h].last() == h);
    reveal_with_fuel(scan_services, 2);
    reveal_with_fuel(scan_findings, 2);
    reveal_with_fuel(scan_evidence, 2);
    assert(scan_services(seq![h]) =~= port_services(h.addr, h.ports));
    assert(scan_findings(seq![h]) =~= port_findings(h.addr, h.ports));
    assert(scan_evidence(seq![h]) =~= port_evidence(h.addr, h.ports));
}

/// A host whose only port is an open tcp port 80 yields exactly one asset,
/// one service, one finding keyed `<ip>:80` and one evidence record whose
/// raw text reads `open tcp 80`.
pub proof fn lemma_single_open_port(h: NmapHostView)
    requires
        h.ports.len() == 1,
        is_open(h.ports[0]),
        h.ports[0].portid == 80,
        h.ports[0].protocol == "tcp"@,
    ensures
        normalized(seq![h]).assets.len() == 1,
        normalized(seq![h]).assets[0].ip == h.addr,
        normalized(seq![h]).services.len() == 1,
        normalized(seq![h]).services[0].port == 80,
        normalized(seq![h]).services[0].protocol == "tcp"@,
        normalized(seq![h]).findings.len() == 1,
        normalized(seq![h]).findings[0].key == h.addr + ":80"@,
        normalized(seq![h]).evidence.len() == 1,
        normalized(seq![h]).evidence[0].finding_key == h.addr + ":80"@,
        normalized(seq![h]).evidence[0].raw == "open tcp 80"@,
{
    reveal_strlit(":");
    reveal_strlit(":80");
    reveal_strlit("open ");
    reveal_strlit(" ");
    reveal_strlit("tcp");
    reveal_strlit("open tcp 80");
    assert(seq![h].drop_last() =~= Seq::<NmapHostView>::empty());
    assert(seq![h].last() == h);
    reveal_with_fuel(scan_services, 2);
    reveal_with_fuel(scan_findings, 2);
    reveal_with_fuel(scan_evidence, 2);
    assert(scan_services(seq![h]) =~= port_services(h.addr, h.ports));
    assert(scan_findings(seq![h]) =~= port_findings(h.addr, h.ports));
    assert(scan_evidence(seq![h]) =~= port_evidence(h.addr, h.ports));
    assert(h.ports.drop_last() =~= Seq::<NmapPortView>::empty());
    assert(h.ports.last() == h.ports[0]);
    reveal_with_fuel(port_services, 2);
    reveal_with_fuel(port_findings, 2);
    reveal_with_fuel(port_evidence, 2);
    assert(port_services(h.addr, h.ports) =~= seq![service_of(h.addr, h.ports[0])]);
    assert(port_findings(h.addr, h.ports) =~= seq![finding_of(h.addr, h.ports[0])]);
    assert(port_evidence(h.addr, h.ports) =~= seq![evidence_of(h.addr, h.ports[0])]);
    assert(decimal_of(80) =~= seq!['8', '0']) by {
        assert(digits_of(8) == seq!['8']);
    }
    assert(":"@ + decimal_of(80) =~= ":80"@);
    assert(h.addr + ":"@ + decimal_of(80) =~= h.addr + ":80"@);
    assert("open "@ + "tcp"@ + " "@ + decimal_of(80) =~= "open tcp 80"@);
}

} // verus!
