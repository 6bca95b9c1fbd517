//! The parsed sandbox report: one immutable value per scan unit.
use vstd::prelude::*;

verus! {

/// A DNS lookup observed during the run.
#[derive(Clone, Debug, PartialEq, Eq)]
pub struct DomainRecord {
    pub domain: Option<String>,
}

/// A captured HTTP exchange. A record without `method` is a response.
#[derive(Clone, Debug, PartialEq, Eq)]
pub struct HttpRecord {
    pub method: Option<String>,
    pub uri: Option<String>,
    pub user_agent: Option<String>,
}

/// A TCP or UDP connection.
#[derive(Clone, Debug, PartialEq, Eq)]
pub struct ConnRecord {
    pub dport: Option<u64>,
    pub dst: Option<String>,
    pub dst_domain: Option<String>,
}

/// Network activity; a sequence missing from the report is empty.
#[derive(Clone, Debug, PartialEq, Eq)]
pub struct NetworkSection {
    pub domains: Vec<DomainRecord>,
    pub http: Vec<HttpRecord>,
    pub tcp: Vec<ConnRecord>,
    pub udp: Vec<ConnRecord>,
    pub hosts: Vec<String>,
}

/// Resources the sample touched.
#[derive(Clone, Debug, PartialEq, Eq)]
pub struct Summary {
    pub mutexes: Vec<String>,
    pub files: Vec<String>,
    pub keys: Vec<String>,
}

#[derive(Clone, Debug, PartialEq, Eq)]
pub struct BehaviorSection {
    pub summary: Option<Summary>,
}

/// Root of a report. Absent sections are distinguishable from empty ones.
#[derive(Clone, Debug, PartialEq, Eq)]
pub struct BehaviorReport {
    pub network: Option<NetworkSection>,
    pub behavior: Option<BehaviorSection>,
}

impl NetworkSection {
    /// Every sequence is short enough for its count to fit in an `i64`.
    pub open spec fn fits(&self) -> bool {
        &&& self.domains@.len() <= i64::MAX
        &&& self.http@.len() <= i64::MAX
        &&& self.tcp@.len() <= i64::MAX
        &&& self.udp@.len() <= i64::MAX
        &&& self.hosts@.len() <= i64::MAX
    }
}

impl Summary {
    pub open spec fn fits(&self) -> bool {
        &&& self.mutexes@.len() <= i64::MAX
        &&& self.files@.len() <= i64::MAX
        &&& self.keys@.len() <= i64::MAX
    }
}

impl BehaviorReport {
    /// The report of a scan unit without usable metadata.
    pub open spec fn is_empty_report(&self) -> bool {
        self.network is None && self.behavior is None
    }

    /// Every sequence of the report can be counted in an `i64`.
    pub open spec fn fits(&self) -> bool {
        &&& (self.network matches Some(n) ==> n.fits())
        &&& (self.behavior matches Some(b) ==> (b.summary matches Some(s) ==> s.fits()))
    }

    pub fn empty() -> (r: BehaviorReport)
        ensures
            r.is_empty_report(),
            r.fits(),
    {
        BehaviorReport { network: None, behavior: None }
    }
}

impl Default for BehaviorReport {
    fn default() -> (r: BehaviorReport)
        ensures
            r.is_empty_report(),
    {
        BehaviorReport::empty()
    }
}

} // verus!
