use cuckoo::cache::{get_local, set_local, ReportCache};
use cuckoo::init::{initialize, install_parsed, ModuleError};
use cuckoo::query::{
    filesystem_file_access_r, network_dns_lookup_r, network_host_r, network_http_get_r,
    network_http_post_r, network_http_request_r, network_http_user_agent_r, network_tcp_ri,
    network_udp_ri, registry_key_access_r, sync_mutex_r,
};
use cuckoo::report::{BehaviorReport, NetworkSection};

/// Reads the `network.hosts` list of a report, enough for these scenarios.
fn parse_hosts(bytes: &[u8]) -> Result<BehaviorReport, String> {
    let value: serde_json::Value = serde_json::from_slice(bytes).map_err(|e| e.to_string())?;
    let network = match value.get("network") {
        None => None,
        Some(net) => {
            let hosts = net
                .get("hosts")
                .and_then(|h| h.as_array())
                .map(|h| h.iter().filter_map(|x| x.as_str().map(|x| x.to_string())).collect())
                .unwrap_or_default();
            Some(NetworkSection { domains: vec![], http: vec![], tcp: vec![], udp: vec![], hosts })
        }
    };
    Ok(BehaviorReport { network, behavior: None })
}

fn any(_: &String) -> bool {
    true
}

fn twelve_queries(cache: &ReportCache) -> Vec<Option<i64>> {
    vec![
        network_dns_lookup_r(cache, any),
        network_http_request_r(cache, any),
        network_http_get_r(cache, any),
        network_http_post_r(cache, any),
        network_http_user_agent_r(cache, any),
        network_tcp_ri(cache, any, 80),
        network_udp_ri(cache, any, 53),
        network_host_r(cache, any),
        sync_mutex_r(cache, any),
        filesystem_file_access_r(cache, any),
        registry_key_access_r(cache, any),
    ]
}

#[test]
fn hosts_scenario() {
    let mut cache = ReportCache::new();
    let meta = br#"{"network":{"hosts":["evil.example"]}}"#;
    assert_eq!(initialize(&mut cache, Some(&meta[..]), parse_hosts), Ok(()));
    assert_eq!(network_host_r(&cache, |h: &String| h == "evil.example"), Some(1));
    assert_eq!(network_host_r(&cache, |h: &String| h == "other.example"), Some(0));
    assert_eq!(sync_mutex_r(&cache, any), None);
}

#[test]
fn metadata_absent_all_undefined() {
    let mut cache = ReportCache::new();
    let parse = |_: &[u8]| -> Result<BehaviorReport, String> { panic!("no metadata to parse") };
    assert_eq!(initialize(&mut cache, None, parse), Ok(()));
    assert_eq!(get_local(&cache), Some(&BehaviorReport::empty()));
    assert!(twelve_queries(&cache).iter().all(|r| r.is_none()));
}

#[test]
fn metadata_empty_all_undefined() {
    let mut cache = ReportCache::new();
    let parse = |_: &[u8]| -> Result<BehaviorReport, String> { panic!("no metadata to parse") };
    assert_eq!(initialize(&mut cache, Some(&[][..]), parse), Ok(()));
    assert!(twelve_queries(&cache).iter().all(|r| r.is_none()));
}

#[test]
fn invalid_json_reports_error() {
    let mut cache = ReportCache::new();
    let mut hosts = NetworkSection { domains: vec![], http: vec![], tcp: vec![], udp: vec![], hosts: vec![] };
    hosts.hosts.push("stale".to_string());
    set_local(&mut cache, BehaviorReport { network: Some(hosts), behavior: None });
    let r = initialize(&mut cache, Some(&b"{not valid json"[..]), parse_hosts);
    let expected = serde_json::from_slice::<serde_json::Value>(b"{not valid json").unwrap_err().to_string();
    assert_eq!(r, Err(ModuleError::MetadataError { err: expected }));
    assert!(twelve_queries(&cache).iter().all(|r| r.is_none()));
}

#[test]
fn install_parsed_ok_installs_report() {
    let mut cache = ReportCache::new();
    let net = NetworkSection { domains: vec![], http: vec![], tcp: vec![], udp: vec![], hosts: vec![] };
    let report = BehaviorReport { network: Some(net), behavior: None };
    assert_eq!(install_parsed(&mut cache, Ok(report.clone())), Ok(()));
    assert_eq!(get_local(&cache), Some(&report));
    assert_eq!(network_host_r(&cache, any), Some(0));
}

#[test]
fn install_parsed_error_installs_empty_report() {
    let mut cache = ReportCache::new();
    let r = install_parsed(&mut cache, Err("expected value at line 1".to_string()));
    assert_eq!(r, Err(ModuleError::MetadataError { err: "expected value at line 1".to_string() }));
    assert_eq!(get_local(&cache), Some(&BehaviorReport::empty()));
}
