use dns_lookup_service::config::{DnsServerConfig, DnsServerConfigs};
use dns_lookup_service::lookup::{
    epoch_millis, extract_results, is_dns_name, DnsAnswer, DnsLookupRequest, DnsLookupService,
    DnsLookupServices, DnsServerResponse, QueryType, RecordKind,
};
use std::str::FromStr;
use trust_dns::rr::Name;

fn server(name: &str, ns: &str, ip4: bool, ip6: bool) -> DnsServerConfig {
    DnsServerConfig {
        name: name.to_string(),
        nameserver: ns.to_string(),
        ip4,
        ip6,
        port: None,
    }
}

fn configs(servers: Vec<DnsServerConfig>) -> DnsServerConfigs {
    DnsServerConfigs {
        servers,
        listen_port: "8989".to_string(),
        listen_host: "127.0.0.1".to_string(),
        is_server: false,
    }
}

fn answer(name: &str, kind: RecordKind, address: Option<&str>) -> DnsAnswer {
    DnsAnswer {
        name: name.to_string(),
        kind,
        address: address.map(|a| a.to_string()),
    }
}

fn response(answers: Vec<DnsAnswer>, start: u64, end: u64) -> DnsServerResponse {
    DnsServerResponse {
        answers,
        start_time: start,
        end_time: end,
    }
}

fn service(name: &str, ip4: bool, ip6: bool) -> DnsLookupService {
    DnsLookupService {
        name: name.to_string(),
        dns_server: "8.8.8.8".to_string(),
        dns_port: "53".to_string(),
        use_tls: false,
        ip4,
        ip6,
    }
}

#[test]
fn from_key_keeps_the_hostname() {
    let r = DnsLookupRequest::from_key(&"google.com".to_string()).unwrap();
    assert_eq!(r.hostname, "google.com");
}

#[test]
fn services_follow_the_configured_servers() {
    let dsc = configs(vec![
        server("cloudflare", "1.1.1.1", true, false),
        server("quad9", "9.9.9.9", false, true),
    ]);
    let s = DnsLookupServices::from_service_configs(&dsc).unwrap();
    assert_eq!(s.servicers.len(), 2);
    assert_eq!(s.servicers[0].name, "cloudflare");
    assert_eq!(s.servicers[0].dns_server, "1.1.1.1");
    assert_eq!(s.servicers[0].dns_port, "53");
    assert!(!s.servicers[0].use_tls);
    assert!(s.servicers[0].ip4 && !s.servicers[0].ip6);
    assert_eq!(s.servicers[1].name, "quad9");
    assert!(!s.servicers[1].ip4 && s.servicers[1].ip6);
    assert_eq!(s.listen_port, "8989");
    assert_eq!(s.listen_host, "127.0.0.1");
}

#[test]
fn a_service_asks_a_before_aaaa() {
    let qs = service("google", true, true)
        .queries(&"google.com".to_string());
    assert_eq!(qs.len(), 2);
    assert_eq!(qs[0].query_type, QueryType::A);
    assert_eq!(qs[1].query_type, QueryType::AAAA);
    for q in &qs {
        assert_eq!(q.source, "google");
        assert_eq!(q.server_address, "8.8.8.8:53");
        assert_eq!(q.hostname, "google.com");
        assert_eq!(q.name, Name::from_str("google.com").unwrap());
    }
}

#[test]
fn a_service_for_ipv6_only_asks_aaaa() {
    let qs = service("google", false, true)
        .queries(&"example.org".to_string());
    assert_eq!(qs.len(), 1);
    assert_eq!(qs[0].query_type, QueryType::AAAA);
}

#[test]
fn a_service_for_no_family_asks_nothing() {
    let qs = service("idle", false, false)
        .queries(&"not a host".to_string());
    assert!(qs.is_empty());
}

#[test]
fn a_hostname_that_is_no_dns_name_is_refused() {
    assert!(is_dns_name(&"google.com".to_string()));
    assert!(!is_dns_name(&"not a host".to_string()));
    let long_label = "a".repeat(64) + ".com";
    assert!(!is_dns_name(&long_label));
    let dsc = configs(vec![server("google", "8.8.8.8", true, false)]);
    let s = DnsLookupServices::from_service_configs(&dsc).unwrap();
    assert!(s.try_queries(&"not a host".to_string()).is_none());
    assert!(s.try_queries(&long_label).is_none());
    let idle = DnsLookupServices::from_service_configs(&configs(vec![server("idle", "8.8.8.8", false, false)])).unwrap();
    assert!(!idle.sends_queries());
    assert_eq!(idle.try_queries(&"not a host".to_string()).unwrap().len(), 0);
}

#[test]
fn a_configured_port_is_used() {
    let mut c = server("local", "127.0.0.1", true, false);
    c.port = Some("5353".to_string());
    let s = DnsLookupServices::from_service_configs(&configs(vec![c])).unwrap();
    assert_eq!(s.servicers[0].dns_port, "5353");
    let qs = s.try_queries(&"example.org".to_string()).unwrap();
    assert_eq!(qs[0].server_address, "127.0.0.1:5353");
}

#[test]
fn all_services_queries_come_in_service_order() {
    let dsc = configs(vec![
        server("cloudflare", "1.1.1.1", true, true),
        server("opendns", "208.67.222.222", true, false),
    ]);
    let s = DnsLookupServices::from_service_configs(&dsc).unwrap();
    assert!(s.sends_queries());
    let qs = s.try_queries(&"google.com".to_string()).unwrap();
    assert_eq!(qs.len(), 3);
    assert!(qs.iter().all(|q| q.name == Name::from_str("google.com").unwrap()));
    assert_eq!(qs[0].source, "cloudflare");
    assert_eq!(qs[0].server_address, "1.1.1.1:53");
    assert_eq!(qs[0].query_type, QueryType::A);
    assert_eq!(qs[1].source, "cloudflare");
    assert_eq!(qs[1].query_type, QueryType::AAAA);
    assert_eq!(qs[2].source, "opendns");
    assert_eq!(qs[2].server_address, "208.67.222.222:53");
    assert_eq!(qs[2].query_type, QueryType::A);
    assert!(s.try_queries(&"bad host".to_string()).is_none());
}

#[test]
fn only_address_records_become_results() {
    let resp = response(
        vec![
            answer("www.google.com.", RecordKind::Other, None),
            answer("google.com.", RecordKind::A, Some("172.217.6.46")),
            answer("google.com.", RecordKind::AAAA, Some("2607:f8b0:4005:809::200e")),
        ],
        1000,
        1038,
    );
    let r = extract_results(&resp, &"cleanbrowsing".to_string());
    assert_eq!(r.results.len(), 2);
    let a = &r.results[0];
    assert_eq!(a.source, "cleanbrowsing");
    assert_eq!(a.name, "google.com.");
    assert_eq!(a.address, "172.217.6.46");
    assert_eq!(a.atype, "ip4");
    assert_eq!(a.time_ms, 38);
    let b = &r.results[1];
    assert_eq!(b.address, "2607:f8b0:4005:809::200e");
    assert_eq!(b.atype, "ip6");
    assert_eq!(b.time_ms, 38);
}

#[test]
fn an_empty_answer_gives_no_results() {
    let r = extract_results(&response(vec![], 5, 5), &"x".to_string());
    assert!(r.results.is_empty());
}

#[test]
fn service_check_collects_its_responses_in_order() {
    let s = service("cloudflare", true, true);
    let responses = vec![
        response(
            vec![answer("google.com.", RecordKind::A, Some("172.217.15.78"))],
            0,
            17,
        ),
        response(
            vec![answer("google.com.", RecordKind::AAAA, Some("2607:f8b0:4004:810::200e"))],
            20,
            38,
        ),
    ];
    let r = s.check(&responses);
    assert_eq!(r.results.len(), 2);
    assert_eq!(r.results[0].atype, "ip4");
    assert_eq!(r.results[0].time_ms, 17);
    assert_eq!(r.results[1].atype, "ip6");
    assert_eq!(r.results[1].time_ms, 18);
    assert!(r.results.iter().all(|x| x.source == "cloudflare"));
}

#[test]
fn lookup_reports_each_source_with_ip4_then_ip6() {
    let dsc = configs(vec![
        server("cleanbrowsing", "185.228.168.9", true, true),
        server("cloudflare", "1.1.1.1", true, true),
    ]);
    let s = DnsLookupServices::from_service_configs(&dsc).unwrap();
    let responses = vec![
        response(vec![answer("google.com.", RecordKind::A, Some("172.217.6.46"))], 0, 38),
        response(
            vec![answer("google.com.", RecordKind::AAAA, Some("2607:f8b0:4005:809::200e"))],
            0,
            40,
        ),
        response(vec![answer("google.com.", RecordKind::A, Some("172.217.15.78"))], 0, 17),
        response(
            vec![answer("google.com.", RecordKind::AAAA, Some("2607:f8b0:4004:810::200e"))],
            0,
            18,
        ),
    ];
    let r = s.check(&responses);
    let got: Vec<(String, String, String, u64)> = r
        .results
        .iter()
        .map(|x| (x.source.clone(), x.address.clone(), x.atype.clone(), x.time_ms))
        .collect();
    assert_eq!(
        got,
        vec![
            ("cleanbrowsing".to_string(), "172.217.6.46".to_string(), "ip4".to_string(), 38),
            (
                "cleanbrowsing".to_string(),
                "2607:f8b0:4005:809::200e".to_string(),
                "ip6".to_string(),
                40
            ),
            ("cloudflare".to_string(), "172.217.15.78".to_string(), "ip4".to_string(), 17),
            (
                "cloudflare".to_string(),
                "2607:f8b0:4004:810::200e".to_string(),
                "ip6".to_string(),
                18
            ),
        ]
    );
}

#[test]
fn joined_services_give_results_of_each_in_turn() {
    let first = service("a", true, false);
    let second = service("b", false, true);
    let r1 = vec![response(vec![answer("h.", RecordKind::A, Some("1.2.3.4"))], 0, 1)];
    let r2 = vec![response(vec![answer("h.", RecordKind::AAAA, Some("::1"))], 0, 2)];
    let joined = DnsLookupServices {
        servicers: vec![first.clone(), second.clone()],
        listen_port: "8989".to_string(),
        listen_host: "127.0.0.1".to_string(),
    };
    let all: Vec<DnsServerResponse> = r1.iter().chain(r2.iter()).cloned().collect();
    let together = joined.check(&all);
    let apart: Vec<_> = first
        .check(&r1)
        .results
        .into_iter()
        .chain(second.check(&r2).results)
        .map(|x| (x.source, x.address, x.atype, x.time_ms))
        .collect();
    let together: Vec<_> = together
        .results
        .into_iter()
        .map(|x| (x.source, x.address, x.atype, x.time_ms))
        .collect();
    assert_eq!(together, apart);
}

#[test]
fn epoch_millis_reads_the_clock() {
    assert_eq!(epoch_millis(None), 0);
    assert_eq!(epoch_millis(Some((2, 500_000_000))), 2500);
    assert_eq!(epoch_millis(Some((1_600_000_000, 999_999_999))), 1_600_000_000_999);
}

#[test]
fn responses_are_checked_before_use() {
    assert!(response(vec![answer("h.", RecordKind::A, Some("1.2.3.4"))], 3, 4).is_well_formed());
    assert!(!response(vec![], 5, 4).is_well_formed());
    assert!(!response(vec![answer("h.", RecordKind::AAAA, None)], 3, 4).is_well_formed());
    assert!(response(vec![answer("h.", RecordKind::Other, None)], 3, 4).is_well_formed());
}
