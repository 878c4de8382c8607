//! The common data model that every tool's output is normalized into.
use crate::text::same_text;
use vstd::prelude::*;

verus! {

/// A discovered host.
#[derive(Clone, Debug)]
pub struct Asset {
    pub hostname: Option<String>,
    pub ip: String,
}

/// A confirmed-open port of a host.
#[derive(Clone, Debug)]
pub struct Service {
    pub ip: String,
    pub port: u16,
    pub protocol: String,
    pub service_name: Option<String>,
}

/// An observation about a target; `key` correlates it with its evidence.
#[derive(Clone, Debug)]
pub struct Finding {
    pub key: String,
    pub severity: String,
    pub title: String,
    pub description: String,
}

/// Raw supporting data for the finding whose key is `finding_key`.
#[derive(Clone, Debug)]
pub struct Evidence {
    pub finding_key: String,
    pub raw: String,
}

/// The tool-independent result of one scan.
#[derive(Clone, Debug)]
pub struct NormalizedScan {
    pub assets: Vec<Asset>,
    pub services: Vec<Service>,
    pub findings: Vec<Finding>,
    pub evidence: Vec<Evidence>,
}

pub struct AssetView {
    pub hostname: Option<Seq<char>>,
    pub ip: Seq<char>,
}

pub struct ServiceView {
    pub ip: Seq<char>,
    pub port: u16,
    pub protocol: Seq<char>,
    pub service_name: Option<Seq<char>>,
}

pub struct FindingView {
    pub key: Seq<char>,
    pub severity: Seq<char>,
    pub title: Seq<char>,
    pub description: Seq<char>,
}

pub struct EvidenceView {
    pub finding_key: Seq<char>,
    pub raw: Seq<char>,
}

pub struct NormalizedScanView {
    pub assets: Seq<AssetView>,
    pub services: Seq<ServiceView>,
    pub findings: Seq<FindingView>,
    pub evidence: Seq<EvidenceView>,
}

/// The text of an optional string.
pub open spec fn opt_view(o: Option<String>) -> Option<Seq<char>> {
    match o {
        Some(s) => Some(s@),
        None => None,
    }
}

/// Copies an optional string.
pub fn clone_opt(o: &Option<String>) -> (r: Option<String>)
    ensures
        opt_view(r) == opt_view(*o),
{
    match o {
        Some(s) => Some(s.clone()),
        None => None,
    }
}

impl View for Asset {
    type V = AssetView;

    open spec fn view(&self) -> AssetView {
        AssetView { hostname: opt_view(self.hostname), ip: self.ip@ }
    }
}

impl View for Service {
    type V = ServiceView;

    open spec fn view(&self) -> ServiceView {
        ServiceView {
            ip: self.ip@,
            port: self.port,
            protocol: self.protocol@,
            service_name: opt_view(self.service_name),
        }
    }
}

impl View for Finding {
    type V = FindingView;

    open spec fn view(&self) -> FindingView {
        FindingView {
            key: self.key@,
            severity: self.severity@,
            title: self.title@,
            description: self.description@,
        }
    }
}

impl View for Evidence {
    type V = EvidenceView;

    open spec fn view(&self) -> EvidenceView {
        EvidenceView { finding_key: self.finding_key@, raw: self.raw@ }
    }
}

pub open spec fn assets_view(v: Seq<Asset>) -> Seq<AssetView> {
    v.map_values(|a: Asset| a@)
}

pub open spec fn services_view(v: Seq<Service>) -> Seq<ServiceView> {
    v.map_values(|s: Service| s@)
}

pub open spec fn findings_view(v: Seq<Finding>) -> Seq<FindingView> {
    v.map_values(|f: Finding| f@)
}

pub open spec fn evidence_view(v: Seq<Evidence>) -> Seq<EvidenceView> {
    v.map_values(|e: Evidence| e@)
}

impl View for NormalizedScan {
    type V = NormalizedScanView;

    open spec fn view(&self) -> NormalizedScanView {
        NormalizedScanView {
            assets: assets_view(self.assets@),
            services: services_view(self.services@),
            findings: findings_view(self.findings@),
            evidence: evidence_view(self.evidence@),
        }
    }
}

/// The position of the first evidence record that carries `key`, if any:
/// evidence is paired with its finding by key, never by position.
pub fn evidence_for(evidence: &Vec<Evidence>, key: &str) -> (r: Option<usize>)
    ensures
        r matches Some(i) ==> i < evidence@.len() && evidence@[i as int].finding_key@ == key@,
        r matches Some(i) ==> forall|j: int| 0 <= j < i ==> evidence@[j].finding_key@ != key@,
        r is None ==> forall|j: int| 0 <= j < evidence@.len() ==> evidence@[j].finding_key@ != key@,
{
    let mut i: usize = 0;
    while i < evidence.len()
        invariant
            i <= evidence@.len(),
            forall|j: int| 0 <= j < i ==> evidence@[j].finding_key@ != key@,
        decreases evidence.len() - i,
    {
        if same_text(evidence[i].finding_key.as_str(), key) {
            return Some(i);
        }
        i = i + 1;
    }
    None
}

impl NormalizedScan {
    /// A scan with nothing in it.
    pub fn empty() -> (r: NormalizedScan)
        ensures
            r@.assets.len() == 0,
            r@.services.len() == 0,
            r@.findings.len() == 0,
            r@.evidence.len() == 0,
    {
        NormalizedScan { assets: Vec::new(), services: Vec::new(), findings: Vec::new(), evidence: Vec::new() }
    }
}

} // verus!
