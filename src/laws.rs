//! Properties that relate the queries, the cache and the report shape.
use vstd::prelude::*;

use crate::cache::installed;
use crate::query::{
    ascii_lower, conn_pred, count, dns_lookup_count, file_access_count, host_count,
    http_request_count, key_access_count, mutex_count, request_hit, request_pred,
    same_ignoring_ascii_case, tcp_count, udp_count, user_agent_count, hit_opt,
};
use crate::report::{BehaviorReport, ConnRecord, HttpRecord};

verus! {

/// Without a network section every `network.*` query is undefined,
/// whatever the pattern and the port.
pub proof fn lemma_network_absent_undefined<F: Fn(&String) -> bool>(rep: BehaviorReport, m: F, port: i64)
    requires
        rep.network is None,
    ensures
        dns_lookup_count(Some(rep), m) is None,
        http_request_count(Some(rep), m, None) is None,
        http_request_count(Some(rep), m, Some("get"@)) is None,
        http_request_count(Some(rep), m, Some("post"@)) is None,
        user_agent_count(Some(rep), m) is None,
        tcp_count(Some(rep), m, port) is None,
        udp_count(Some(rep), m, port) is None,
        host_count(Some(rep), m) is None,
{
}

/// With a network section whose DNS list is empty, `network.dns_lookup`
/// is zero for every pattern.
pub proof fn lemma_no_domains_zero<F: Fn(&String) -> bool>(rep: BehaviorReport, m: F)
    requires
        rep.network matches Some(net) && net.domains@.len() == 0,
    ensures
        dns_lookup_count(Some(rep), m) == Some(0int),
{
}

/// The empty report, installed when a scan unit has no usable metadata,
/// leaves every query undefined.
pub proof fn lemma_empty_report_undefined<F: Fn(&String) -> bool>(m: F, port: i64)
    ensures
        dns_lookup_count(Some(BehaviorReport { network: None, behavior: None }), m) is None,
        http_request_count(Some(BehaviorReport { network: None, behavior: None }), m, None) is None,
        http_request_count(Some(BehaviorReport { network: None, behavior: None }), m, Some("get"@)) is None,
        http_request_count(Some(BehaviorReport { network: None, behavior: None }), m, Some("post"@)) is None,
        user_agent_count(Some(BehaviorReport { network: None, behavior: None }), m) is None,
        tcp_count(Some(BehaviorReport { network: None, behavior: None }), m, port) is None,
        udp_count(Some(BehaviorReport { network: None, behavior: None }), m, port) is None,
        host_count(Some(BehaviorReport { network: None, behavior: None }), m) is None,
        mutex_count(Some(BehaviorReport { network: None, behavior: None }), m) is None,
        file_access_count(Some(BehaviorReport { network: None, behavior: None }), m) is None,
        key_access_count(Some(BehaviorReport { network: None, behavior: None }), m) is None,
{
}

/// An HTTP record without a method is a response: adding one never changes
/// `network.http_request`, `network.http_get` or `network.http_post`, even
/// when its URI matches.
pub proof fn lemma_response_not_counted<F: Fn(&String) -> bool>(
    m: F,
    http: Seq<HttpRecord>,
    rec: HttpRecord,
    verb: Option<Seq<char>>,
)
    requires
        rec.method is None,
    ensures
        count(http.push(rec), request_pred(m, verb)) == count(http, request_pred(m, verb)),
{
    assert(http.push(rec).drop_last() =~= http);
}

/// Methods are compared up to ASCII case: two records that differ only in
/// methods equal up to ASCII case count alike for every verb.
pub proof fn lemma_method_case_insensitive<F: Fn(&String) -> bool>(
    m: F,
    a: HttpRecord,
    b: HttpRecord,
    verb: Option<Seq<char>>,
)
    requires
        a.uri == b.uri,
        a.method is Some,
        b.method is Some,
        same_ignoring_ascii_case(a.method->0@, b.method->0@),
    ensures
        request_hit(m, a, verb) == request_hit(m, b, verb),
{
    if let Some(v) = verb {
        let x = a.method->0@;
        let y = b.method->0@;
        assert(forall|i: int| 0 <= i < x.len() ==> ascii_lower(#[trigger] x[i]) == ascii_lower(y[i]));
        if same_ignoring_ascii_case(x, v) {
            assert forall|i: int| 0 <= i < y.len() implies ascii_lower(#[trigger] y[i]) == ascii_lower(v[i]) by {
                assert(ascii_lower(x[i]) == ascii_lower(y[i]));
            }
        }
        if same_ignoring_ascii_case(y, v) {
            assert forall|i: int| 0 <= i < x.len() implies ascii_lower(#[trigger] x[i]) == ascii_lower(v[i]) by {
                assert(ascii_lower(x[i]) == ascii_lower(y[i]));
            }
        }
    }
}

/// A connection to another port than the one queried never counts toward
/// `network.tcp` or `network.udp`, whatever the pattern.
pub proof fn lemma_other_port_not_counted<F: Fn(&String) -> bool>(
    m: F,
    conns: Seq<ConnRecord>,
    c: ConnRecord,
    port: i64,
)
    requires
        c.dport != Some(port as u64),
    ensures
        count(conns.push(c), conn_pred(m, port)) == count(conns, conn_pred(m, port)),
{
    assert(conns.push(c).drop_last() =~= conns);
}

/// A connection to the queried port counts when its resolved domain
/// matches, whether or not its address does.
pub proof fn lemma_domain_match_suffices<F: Fn(&String) -> bool>(
    m: F,
    conns: Seq<ConnRecord>,
    c: ConnRecord,
    port: i64,
)
    requires
        0 <= port <= 65535,
        c.dport == Some(port as u64),
        hit_opt(m, c.dst_domain),
    ensures
        count(conns.push(c), conn_pred(m, port)) == count(conns, conn_pred(m, port)) + 1,
{
    assert(conns.push(c).drop_last() =~= conns);
}

/// Installing the same report twice leaves the cache as installing it once,
/// so every query then answers alike.
pub proof fn lemma_install_idempotent(prior: Option<BehaviorReport>, rep: BehaviorReport)
    ensures
        installed(installed(prior, rep), rep) == installed(prior, rep),
{
}

} // verus!
