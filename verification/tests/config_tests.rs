use dns_lookup_service::config::{
    keep_decoded_servers, parse_config_text, ConfigFile, ConfigKey, DnsServerConfig,
    DnsServerConfigs, DnsServiceArgs,
};

fn server(name: &str, ns: &str, ip4: bool, ip6: bool) -> DnsServerConfig {
    DnsServerConfig {
        name: name.to_string(),
        nameserver: ns.to_string(),
        ip4,
        ip6,
        port: None,
    }
}

#[test]
fn default_args_match_the_command_line_defaults() {
    let a = DnsServiceArgs::default();
    assert_eq!(a.config, "");
    assert_eq!(a.log_config, "");
    assert!(!a.ip4);
    assert!(!a.ip6);
    assert_eq!(a.dns_server, "8.8.8.8");
    assert_eq!(a.hostname, "");
    assert_eq!(a.port, "53");
    assert!(!a.is_server);
    assert_eq!(a.listen_port, "8989");
    assert_eq!(a.listen_host, "127.0.0.1");
}

#[test]
fn no_family_chosen_means_ipv4() {
    let a = DnsServiceArgs::default().settle_families();
    assert!(a.ip4);
    assert!(!a.ip6);
    assert_eq!(a.dns_server, "8.8.8.8");
}

#[test]
fn ipv6_alone_stays_ipv6_alone() {
    let mut a = DnsServiceArgs::default();
    a.ip6 = true;
    let a = a.settle_families();
    assert!(!a.ip4);
    assert!(a.ip6);
}

#[test]
fn both_families_stay_chosen() {
    let mut a = DnsServiceArgs::default();
    a.ip4 = true;
    a.ip6 = true;
    let a = a.settle_families();
    assert!(a.ip4 && a.ip6);
}

#[test]
fn settling_twice_changes_nothing() {
    for (ip4, ip6) in [(false, false), (true, false), (false, true), (true, true)] {
        let mut a = DnsServiceArgs::default();
        a.ip4 = ip4;
        a.ip6 = ip6;
        let once = a.settle_families();
        let (o4, o6) = (once.ip4, once.ip6);
        assert!(o4 || o6);
        let twice = once.settle_families();
        assert_eq!((twice.ip4, twice.ip6), (o4, o6));
    }
}

#[test]
fn config_and_log_files_are_used_when_named() {
    let mut a = DnsServiceArgs::default();
    assert!(!a.uses_config_file());
    assert!(!a.uses_log_config());
    a.config = "servers.toml".to_string();
    a.log_config = "log.yaml".to_string();
    assert!(a.uses_config_file());
    assert!(a.uses_log_config());
}

#[test]
fn unreadable_server_entries_are_left_out_in_order() {
    let entries = vec![
        Some(server("cloudflare", "1.1.1.1", true, false)),
        None,
        Some(server("google", "8.8.8.8", true, true)),
        None,
    ];
    let kept = keep_decoded_servers(Some(entries)).unwrap();
    assert_eq!(kept.len(), 2);
    assert_eq!(kept[0].name, "cloudflare");
    assert_eq!(kept[1].name, "google");
    assert!(kept[1].ip6);
}

#[test]
fn no_server_table_gives_no_servers() {
    assert!(keep_decoded_servers(None).is_none());
    assert_eq!(keep_decoded_servers(Some(vec![None, None])).unwrap().len(), 0);
}

#[test]
fn command_line_gives_one_server() {
    let mut a = DnsServiceArgs::default();
    a.dns_server = "1.1.1.1".to_string();
    a.ip6 = true;
    a.is_server = true;
    a.listen_port = "9000".to_string();
    let a = a.settle_families();
    let c = DnsServerConfigs::from_service_args(&a, None).unwrap();
    assert_eq!(c.servers[0].port, Some("53".to_string()));
    assert_eq!(c.servers.len(), 1);
    assert_eq!(c.servers[0].name, "command_line");
    assert_eq!(c.servers[0].nameserver, "1.1.1.1");
    assert!(!c.servers[0].ip4);
    assert!(c.servers[0].ip6);
    assert_eq!(c.listen_port, "9000");
    assert_eq!(c.listen_host, "127.0.0.1");
    assert!(c.is_server);
}

#[test]
fn config_file_servers_are_taken_as_read() {
    let mut a = DnsServiceArgs::default();
    a.config = "servers.toml".to_string();
    let servers = vec![
        server("quad9", "9.9.9.9", true, true),
        server("yandex", "77.88.8.8", false, true),
    ];
    let file = ConfigFile { servers, listen_port: None };
    let c = DnsServerConfigs::from_service_args(&a, Some(file)).unwrap();
    assert_eq!(c.listen_port, "8989");
    assert_eq!(c.listen_host, "127.0.0.1");
    assert_eq!(c.servers.len(), 2);
    assert_eq!(c.servers[0].name, "quad9");
    assert_eq!(c.servers[1].nameserver, "77.88.8.8");
    assert!(!c.is_server);
}

#[test]
fn unreadable_config_file_gives_no_configuration() {
    let mut a = DnsServiceArgs::default();
    a.config = "missing.toml".to_string();
    assert!(DnsServerConfigs::from_service_args(&a, None).is_none());
}

#[test]
fn config_file_entries_have_their_names() {
    assert_eq!(ConfigKey::Servers.key(), "servers");
    assert_eq!(ConfigKey::ListenPort.key(), "listen_port");
}

#[test]
fn listen_port_in_the_config_file_wins() {
    let mut a = DnsServiceArgs::default();
    a.config = "servers.toml".to_string();
    let file = ConfigFile {
        servers: vec![server("quad9", "9.9.9.9", true, false)],
        listen_port: Some("9000".to_string()),
    };
    let c = DnsServerConfigs::from_service_args(&a, Some(file)).unwrap();
    assert_eq!(c.listen_port, "9000");
    assert_eq!(c.listen_host, "127.0.0.1");
}

#[test]
fn listen_port_alone_in_the_config_file() {
    let mut a = DnsServiceArgs::default();
    a.config = "servers.toml".to_string();
    a.listen_host = "10.0.0.1".to_string();
    let file = ConfigFile { servers: vec![], listen_port: Some("9000".to_string()) };
    let c = DnsServerConfigs::from_service_args(&a, Some(file)).unwrap();
    assert_eq!(c.listen_port, "9000");
    assert_eq!(c.listen_host, "10.0.0.1");
}

#[test]
fn command_line_port_is_the_query_port() {
    let mut a = DnsServiceArgs::default();
    a.port = "5353".to_string();
    let c = DnsServerConfigs::from_service_args(&a.settle_families(), None).unwrap();
    assert_eq!(c.servers[0].port, Some("5353".to_string()));
}

#[test]
fn config_file_parts_keep_readable_servers() {
    let f = ConfigFile::from_parts(
        Some(vec![None, Some(server("google", "8.8.8.8", true, true))]),
        Some("9000".to_string()),
    )
    .unwrap();
    assert_eq!(f.servers.len(), 1);
    assert_eq!(f.servers[0].name, "google");
    assert_eq!(f.listen_port, Some("9000".to_string()));
    assert!(ConfigFile::from_parts(None, Some("9000".to_string())).is_none());
}

#[test]
fn config_text_is_read_as_toml() {
    let text = "listen_port = \"9000\"\n[servers.google]\nname = \"google\"\nnameserver = \"8.8.8.8\"\nip4 = true\nip6 = false\n".to_string();
    let v = parse_config_text(&text).unwrap();
    assert_eq!(v["listen_port"].as_str(), Some("9000"));
    assert_eq!(v["servers"]["google"]["nameserver"].as_str(), Some("8.8.8.8"));
    assert!(parse_config_text(&"servers = [".to_string()).is_none());
    assert!(parse_config_text(&"= 1".to_string()).is_none());
}
