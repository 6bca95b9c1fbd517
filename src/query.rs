//! The indicator queries. Each reads the installed report along a fixed path:
//! an absent step gives `None`, otherwise the number of entries that satisfy
//! the query's predicate. The caller supplies the pattern as a function `m`
//! that tells whether a string matches it.
use vstd::prelude::*;

use crate::cache::{get_local, ReportCache};
use crate::report::{BehaviorReport, ConnRecord, DomainRecord, HttpRecord, NetworkSection, Summary};

verus! {

/// `m` may be called on any string and never both accepts and rejects one.
pub open spec fn decides<F: Fn(&String) -> bool>(m: F) -> bool {
    &&& forall|s: &String| #[trigger] m.requires((s,))
    &&& forall|s: &String| #[trigger] m.ensures((s,), false) ==> !m.ensures((s,), true)
}

/// `m` can answer `true` on `s`; under `decides(m)` every call of `m` on
/// `s` answers exactly this.
pub open spec fn hit<F: Fn(&String) -> bool>(m: F, s: String) -> bool {
    m.ensures((&s,), true)
}

/// Number of elements of `s` that satisfy `p`.
pub open spec fn count<T>(s: Seq<T>, p: spec_fn(T) -> bool) -> nat
    decreases s.len(),
{
    if s.len() == 0 {
        0
    } else {
        count(s.drop_last(), p) + if p(s.last()) { 1nat } else { 0nat }
    }
}

/// A present value that `m` accepts.
pub open spec fn hit_opt<F: Fn(&String) -> bool>(m: F, s: Option<String>) -> bool {
    s matches Some(v) && hit(m, v)
}

/// A connection to `port` whose address or resolved domain matches.
/// Ports outside 0..=65535 match no connection.
pub open spec fn conn_hit<F: Fn(&String) -> bool>(m: F, c: ConnRecord, port: i64) -> bool {
    &&& 0 <= port <= 65535
    &&& c.dport == Some(port as u64)
    &&& hit_opt(m, c.dst) || hit_opt(m, c.dst_domain)
}

/// `conn_hit` as a predicate over connections.
pub open spec fn conn_pred<F: Fn(&String) -> bool>(m: F, port: i64) -> spec_fn(ConnRecord) -> bool {
    |c: ConnRecord| conn_hit(m, c, port)
}

proof fn lemma_count_step<T>(s: Seq<T>, i: int, p: spec_fn(T) -> bool)
    requires
        0 <= i < s.len(),
    ensures
        count(s.take(i + 1), p) == count(s.take(i), p) + if p(s[i]) { 1nat } else { 0nat },
{
    assert(s.take(i + 1).drop_last() =~= s.take(i));
}

fn hit_opt_exec<F: Fn(&String) -> bool>(m: &F, s: &Option<String>) -> (r: bool)
    requires
        decides(*m),
    ensures
        r == hit_opt(*m, *s),
{
    match s {
        Some(v) => m(v),
        None => false,
    }
}

fn count_conns<F: Fn(&String) -> bool>(m: &F, conns: &Vec<ConnRecord>, port: i64) -> (n: usize)
    requires
        decides(*m),
    ensures
        n == count(conns@, conn_pred(*m, port)),
        n <= conns@.len(),
{
    let mut n: usize = 0;
    let mut i: usize = 0;
    while i < conns.len()
        invariant
            decides(*m),
            i <= conns@.len(),
            n == count(conns@.take(i as int), conn_pred(*m, port)),
            n <= i,
        decreases conns@.len() - i,
    {
        let c = &conns[i];
        let found = match c.dport {
            Some(d) => 0 <= port && port <= 65535 && d == port as u64 && (hit_opt_exec(m, &c.dst)
                || hit_opt_exec(m, &c.dst_domain)),
            None => false,
        };
        proof {
            lemma_count_step(conns@, i as int, conn_pred(*m, port));
        }
        if found {
            n = n + 1;
        }
        i = i + 1;
    }
    assert(conns@.take(conns@.len() as int) =~= conns@);
    n
}


/// The code of `c` after ASCII upper case letters are mapped to lower case.
pub open spec fn ascii_lower(c: char) -> int {
    if 'A' <= c && c <= 'Z' {
        c as int + 32
    } else {
        c as int
    }
}

/// `a` and `b` are equal up to ASCII case.
pub open spec fn same_ignoring_ascii_case(a: Seq<char>, b: Seq<char>) -> bool {
    &&& a.len() == b.len()
    &&& forall|i: int| 0 <= i < a.len() ==> ascii_lower(#[trigger] a[i]) == ascii_lower(b[i])
}

/// Relies on `str::eq_ignore_ascii_case`: the strings are equal once ASCII
/// upper case letters of both are mapped to lower case.
#[verifier::external_body]
fn eq_ignore_ascii_case(a: &str, b: &str) -> (r: bool)
    ensures
        r == same_ignoring_ascii_case(a@, b@),
{
    a.eq_ignore_ascii_case(b)
}

/// A DNS record whose domain matches.
pub open spec fn domain_pred<F: Fn(&String) -> bool>(m: F) -> spec_fn(DomainRecord) -> bool {
    |d: DomainRecord| hit_opt(m, d.domain)
}

/// An HTTP request (a record with a method) whose URI matches; with
/// `verb` present, the method must also equal it up to ASCII case.
pub open spec fn request_hit<F: Fn(&String) -> bool>(m: F, h: HttpRecord, verb: Option<Seq<char>>) -> bool {
    &&& h.method is Some
    &&& (verb matches Some(v) ==> same_ignoring_ascii_case(h.method->0@, v))
    &&& hit_opt(m, h.uri)
}

/// `request_hit` as a predicate over HTTP records.
pub open spec fn request_pred<F: Fn(&String) -> bool>(m: F, verb: Option<Seq<char>>) -> spec_fn(HttpRecord) -> bool {
    |h: HttpRecord| request_hit(m, h, verb)
}

/// An HTTP record, request or response, whose user agent matches.
pub open spec fn agent_pred<F: Fn(&String) -> bool>(m: F) -> spec_fn(HttpRecord) -> bool {
    |h: HttpRecord| hit_opt(m, h.user_agent)
}

/// A plain string entry that matches.
pub open spec fn entry_pred<F: Fn(&String) -> bool>(m: F) -> spec_fn(String) -> bool {
    |s: String| hit(m, s)
}

fn count_domains<F: Fn(&String) -> bool>(m: &F, recs: &Vec<DomainRecord>) -> (n: usize)
    requires
        decides(*m),
    ensures
        n == count(recs@, domain_pred(*m)),
        n <= recs@.len(),
{
    let mut n: usize = 0;
    let mut i: usize = 0;
    while i < recs.len()
        invariant
            decides(*m),
            i <= recs@.len(),
            n == count(recs@.take(i as int), domain_pred(*m)),
            n <= i,
        decreases recs@.len() - i,
    {
        let found = hit_opt_exec(m, &recs[i].domain);
        proof {
            lemma_count_step(recs@, i as int, domain_pred(*m));
        }
        if found {
            n = n + 1;
        }
        i = i + 1;
    }
    assert(recs@.take(recs@.len() as int) =~= recs@);
    n
}

/// The characters of `verb`, if given.
pub open spec fn verb_view(verb: Option<&str>) -> Option<Seq<char>> {
    match verb {
        Some(v) => Some(v@),
        None => None,
    }
}

fn count_requests<F: Fn(&String) -> bool>(m: &F, recs: &Vec<HttpRecord>, verb: Option<&str>) -> (n: usize)
    requires
        decides(*m),
    ensures
        n == count(recs@, request_pred(*m, verb_view(verb))),
        n <= recs@.len(),
{
    let ghost want = verb_view(verb);
    let mut n: usize = 0;
    let mut i: usize = 0;
    while i < recs.len()
        invariant
            decides(*m),
            want == verb_view(verb),
            i <= recs@.len(),
            n == count(recs@.take(i as int), request_pred(*m, want)),
            n <= i,
        decreases recs@.len() - i,
    {
        let h = &recs[i];
        let found = match &h.method {
            Some(method) => {
                let method_ok = match verb {
                    Some(v) => eq_ignore_ascii_case(method.as_str(), v),
                    None => true,
                };
                method_ok && hit_opt_exec(m, &h.uri)
            },
            None => false,
        };
        proof {
            lemma_count_step(recs@, i as int, request_pred(*m, want));
        }
        if found {
            n = n + 1;
        }
        i = i + 1;
    }
    assert(recs@.take(recs@.len() as int) =~= recs@);
    n
}

fn count_agents<F: Fn(&String) -> bool>(m: &F, recs: &Vec<HttpRecord>) -> (n: usize)
    requires
        decides(*m),
    ensures
        n == count(recs@, agent_pred(*m)),
        n <= recs@.len(),
{
    let mut n: usize = 0;
    let mut i: usize = 0;
    while i < recs.len()
        invariant
            decides(*m),
            i <= recs@.len(),
            n == count(recs@.take(i as int), agent_pred(*m)),
            n <= i,
        decreases recs@.len() - i,
    {
        let found = hit_opt_exec(m, &recs[i].user_agent);
        proof {
            lemma_count_step(recs@, i as int, agent_pred(*m));
        }
        if found {
            n = n + 1;
        }
        i = i + 1;
    }
    assert(recs@.take(recs@.len() as int) =~= recs@);
    n
}

fn count_entries<F: Fn(&String) -> bool>(m: &F, entries: &Vec<String>) -> (n: usize)
    requires
        decides(*m),
    ensures
        n == count(entries@, entry_pred(*m)),
        n <= entries@.len(),
{
    let mut n: usize = 0;
    let mut i: usize = 0;
    while i < entries.len()
        invariant
            decides(*m),
            i <= entries@.len(),
            n == count(entries@.take(i as int), entry_pred(*m)),
            n <= i,
        decreases entries@.len() - i,
    {
        let found = m(&entries[i]);
        proof {
            lemma_count_step(entries@, i as int, entry_pred(*m));
        }
        if found {
            n = n + 1;
        }
        i = i + 1;
    }
    assert(entries@.take(entries@.len() as int) =~= entries@);
    n
}

/// The network section of the installed report, if both are there.
pub open spec fn network_of(rep: Option<BehaviorReport>) -> Option<NetworkSection> {
    match rep {
        Some(r) => r.network,
        None => None,
    }
}

/// The behaviour summary of the installed report, if every step is there.
pub open spec fn summary_of(rep: Option<BehaviorReport>) -> Option<Summary> {
    match rep {
        Some(r) => match r.behavior {
            Some(b) => b.summary,
            None => None,
        },
        None => None,
    }
}

/// Every count the installed report can give fits in an `i64`.
pub open spec fn countable(rep: Option<BehaviorReport>) -> bool {
    rep matches Some(r) ==> r.fits()
}

/// A query result read as a mathematical integer.
pub open spec fn as_count(r: Option<i64>) -> Option<int> {
    match r {
        Some(n) => Some(n as int),
        None => None,
    }
}

/// `network.dns_lookup`: DNS records whose domain matches.
pub open spec fn dns_lookup_count<F: Fn(&String) -> bool>(rep: Option<BehaviorReport>, m: F) -> Option<int> {
    match network_of(rep) {
        Some(net) => Some(count(net.domains@, domain_pred(m)) as int),
        None => None,
    }
}

/// `network.http_request`, `network.http_get` (verb `get`) and
/// `network.http_post` (verb `post`): matching requests.
pub open spec fn http_request_count<F: Fn(&String) -> bool>(
    rep: Option<BehaviorReport>,
    m: F,
    verb: Option<Seq<char>>,
) -> Option<int> {
    match network_of(rep) {
        Some(net) => Some(count(net.http@, request_pred(m, verb)) as int),
        None => None,
    }
}

/// `network.http_user_agent`: HTTP records whose user agent matches.
pub open spec fn user_agent_count<F: Fn(&String) -> bool>(rep: Option<BehaviorReport>, m: F) -> Option<int> {
    match network_of(rep) {
        Some(net) => Some(count(net.http@, agent_pred(m)) as int),
        None => None,
    }
}

/// `network.tcp`: TCP connections to `port` whose address or domain matches.
pub open spec fn tcp_count<F: Fn(&String) -> bool>(rep: Option<BehaviorReport>, m: F, port: i64) -> Option<int> {
    match network_of(rep) {
        Some(net) => Some(count(net.tcp@, conn_pred(m, port)) as int),
        None => None,
    }
}

/// `network.udp`: UDP connections to `port` whose address or domain matches.
pub open spec fn udp_count<F: Fn(&String) -> bool>(rep: Option<BehaviorReport>, m: F, port: i64) -> Option<int> {
    match network_of(rep) {
        Some(net) => Some(count(net.udp@, conn_pred(m, port)) as int),
        None => None,
    }
}

/// `network.host`: contacted hosts that match.
pub open spec fn host_count<F: Fn(&String) -> bool>(rep: Option<BehaviorReport>, m: F) -> Option<int> {
    match network_of(rep) {
        Some(net) => Some(count(net.hosts@, entry_pred(m)) as int),
        None => None,
    }
}

/// `sync.mutex`: mutexes in the summary that match.
pub open spec fn mutex_count<F: Fn(&String) -> bool>(rep: Option<BehaviorReport>, m: F) -> Option<int> {
    match summary_of(rep) {
        Some(s) => Some(count(s.mutexes@, entry_pred(m)) as int),
        None => None,
    }
}

/// `filesystem.file_access`: files in the summary that match.
pub open spec fn file_access_count<F: Fn(&String) -> bool>(rep: Option<BehaviorReport>, m: F) -> Option<int> {
    match summary_of(rep) {
        Some(s) => Some(count(s.files@, entry_pred(m)) as int),
        None => None,
    }
}

/// `registry.key_access`: registry keys in the summary that match.
pub open spec fn key_access_count<F: Fn(&String) -> bool>(rep: Option<BehaviorReport>, m: F) -> Option<int> {
    match summary_of(rep) {
        Some(s) => Some(count(s.keys@, entry_pred(m)) as int),
        None => None,
    }
}

/// The network section of the installed report.
fn network_section(cache: &ReportCache) -> (r: Option<&NetworkSection>)
    ensures
        r is None <==> network_of(cache@) is None,
        r matches Some(net) ==> network_of(cache@) == Some(*net),
{
    let rep = get_local(cache)?;
    rep.network.as_ref()
}

/// The behaviour summary of the installed report.
fn summary_section(cache: &ReportCache) -> (r: Option<&Summary>)
    ensures
        r is None <==> summary_of(cache@) is None,
        r matches Some(s) ==> summary_of(cache@) == Some(*s),
{
    let rep = get_local(cache)?;
    rep.behavior.as_ref()?.summary.as_ref()
}

pub fn network_dns_lookup_r<F: Fn(&String) -> bool>(cache: &ReportCache, m: F) -> (r: Option<i64>)
    requires
        decides(m),
        countable(cache@),
    ensures
        as_count(r) == dns_lookup_count(cache@, m),
{
    let net = network_section(cache)?;
    let n = count_domains(&m, &net.domains);
    Some(n as i64)
}

pub fn network_http_request_r<F: Fn(&String) -> bool>(cache: &ReportCache, m: F) -> (r: Option<i64>)
    requires
        decides(m),
        countable(cache@),
    ensures
        as_count(r) == http_request_count(cache@, m, None),
{
    let net = network_section(cache)?;
    let n = count_requests(&m, &net.http, None);
    Some(n as i64)
}

pub fn network_http_get_r<F: Fn(&String) -> bool>(cache: &ReportCache, m: F) -> (r: Option<i64>)
    requires
        decides(m),
        countable(cache@),
    ensures
        as_count(r) == http_request_count(cache@, m, Some("get"@)),
{
    let net = network_section(cache)?;
    let n = count_requests(&m, &net.http, Some("get"));
    Some(n as i64)
}

pub fn network_http_post_r<F: Fn(&String) -> bool>(cache: &ReportCache, m: F) -> (r: Option<i64>)
    requires
        decides(m),
        countable(cache@),
    ensures
        as_count(r) == http_request_count(cache@, m, Some("post"@)),
{
    let net = network_section(cache)?;
    let n = count_requests(&m, &net.http, Some("post"));
    Some(n as i64)
}

pub fn network_http_user_agent_r<F: Fn(&String) -> bool>(cache: &ReportCache, m: F) -> (r: Option<i64>)
    requires
        decides(m),
        countable(cache@),
    ensures
        as_count(r) == user_agent_count(cache@, m),
{
    let net = network_section(cache)?;
    let n = count_agents(&m, &net.http);
    Some(n as i64)
}

pub fn network_tcp_ri<F: Fn(&String) -> bool>(cache: &ReportCache, m: F, port: i64) -> (r: Option<i64>)
    requires
        decides(m),
        countable(cache@),
    ensures
        as_count(r) == tcp_count(cache@, m, port),
{
    let net = network_section(cache)?;
    let n = count_conns(&m, &net.tcp, port);
    Some(n as i64)
}

pub fn network_udp_ri<F: Fn(&String) -> bool>(cache: &ReportCache, m: F, port: i64) -> (r: Option<i64>)
    requires
        decides(m),
        countable(cache@),
    ensures
        as_count(r) == udp_count(cache@, m, port),
{
    let net = network_section(cache)?;
    let n = count_conns(&m, &net.udp, port);
    Some(n as i64)
}

pub fn network_host_r<F: Fn(&String) -> bool>(cache: &ReportCache, m: F) -> (r: Option<i64>)
    requires
        decides(m),
        countable(cache@),
    ensures
        as_count(r) == host_count(cache@, m),
{
    let net = network_section(cache)?;
    let n = count_entries(&m, &net.hosts);
    Some(n as i64)
}

pub fn sync_mutex_r<F: Fn(&String) -> bool>(cache: &ReportCache, m: F) -> (r: Option<i64>)
    requires
        decides(m),
        countable(cache@),
    ensures
        as_count(r) == mutex_count(cache@, m),
{
    let s = summary_section(cache)?;
    let n = count_entries(&m, &s.mutexes);
    Some(n as i64)
}

pub fn filesystem_file_access_r<F: Fn(&String) -> bool>(cache: &ReportCache, m: F) -> (r: Option<i64>)
    requires
        decides(m),
        countable(cache@),
    ensures
        as_count(r) == file_access_count(cache@, m),
{
    let s = summary_section(cache)?;
    let n = count_entries(&m, &s.files);
    Some(n as i64)
}

pub fn registry_key_access_r<F: Fn(&String) -> bool>(cache: &ReportCache, m: F) -> (r: Option<i64>)
    requires
        decides(m),
        countable(cache@),
    ensures
        as_count(r) == key_access_count(cache@, m),
{
    let s = summary_section(cache)?;
    let n = count_entries(&m, &s.keys);
    Some(n as i64)
}

} // verus!
