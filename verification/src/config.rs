//! Configuration of the lookup service: command-line arguments, the servers
//! to ask, and where the service listens.
use vstd::prelude::*;

use crate::laws::{count_some, law_every_readable_entry_is_kept};

verus! {

broadcast use vstd::string::group_string_axioms;

/// One DNS server to ask, and which address families to ask it for.
/// `port` is the port to ask it on, where one was given; otherwise the
/// standard DNS port is used.
#[derive(Clone, Debug)]
pub struct DnsServerConfig {
    pub name: String,
    pub nameserver: String,
    pub ip4: bool,
    pub ip6: bool,
    pub port: Option<String>,
}

/// The options the service was started with.
#[derive(Clone, Debug)]
pub struct DnsServiceArgs {
    pub config: String,
    pub log_config: String,
    pub ip4: bool,
    pub ip6: bool,
    pub dns_server: String,
    pub hostname: String,
    pub port: String,
    pub is_server: bool,
    pub listen_port: String,
    pub listen_host: String,
}

/// Every server to ask, and where the service listens.
#[derive(Clone, Debug)]
pub struct DnsServerConfigs {
    pub servers: Vec<DnsServerConfig>,
    pub listen_port: String,
    pub listen_host: String,
    pub is_server: bool,
}

/// The options before any is given: no config files, no address family
/// chosen, server 8.8.8.8 on port 53, no host name, and a server that would
/// listen on 127.0.0.1:8989 but is not started.
pub open spec fn default_args(a: DnsServiceArgs) -> bool {
    &&& a.config@ == Seq::<char>::empty()
    &&& a.log_config@ == Seq::<char>::empty()
    &&& !a.ip4
    &&& !a.ip6
    &&& a.dns_server@ == "8.8.8.8"@
    &&& a.hostname@ == Seq::<char>::empty()
    &&& a.port@ == "53"@
    &&& !a.is_server
    &&& a.listen_port@ == "8989"@
    &&& a.listen_host@ == "127.0.0.1"@
}

/// `b` is `a` with the address families settled: IPv4 is asked for when it
/// was chosen or when IPv6 was not; everything else is kept.
pub open spec fn settled_families(a: DnsServiceArgs, b: DnsServiceArgs) -> bool {
    &&& b.ip4 == (a.ip4 || !a.ip6)
    &&& b.ip6 == a.ip6
    &&& b.config == a.config
    &&& b.log_config == a.log_config
    &&& b.dns_server == a.dns_server
    &&& b.hostname == a.hostname
    &&& b.port == a.port
    &&& b.is_server == a.is_server
    &&& b.listen_port == a.listen_port
    &&& b.listen_host == a.listen_host
}

impl Default for DnsServiceArgs {
    fn default() -> (r: DnsServiceArgs)
        ensures
            default_args(r),
    {
        proof {
            reveal_strlit("8.8.8.8");
            reveal_strlit("53");
            reveal_strlit("8989");
            reveal_strlit("127.0.0.1");
        }
        DnsServiceArgs {
            config: String::new(),
            log_config: String::new(),
            ip4: false,
            ip6: false,
            dns_server: "8.8.8.8".to_string(),
            hostname: String::new(),
            port: "53".to_string(),
            is_server: false,
            listen_port: "8989".to_string(),
            listen_host: "127.0.0.1".to_string(),
        }
    }
}

impl DnsServiceArgs {
    /// Settles the address families once the options are read: when neither
    /// IPv4 nor IPv6 was chosen, IPv4 is asked for.
    pub fn settle_families(self) -> (r: DnsServiceArgs)
        ensures
            settled_families(self, r),
    {
        let mut r = self;
        if !r.ip4 && !r.ip6 {
            r.ip4 = true;
        }
        r
    }

    /// Whether the servers come from a config file rather than from the
    /// command line: exactly when a config file was named.
    pub fn uses_config_file(&self) -> (b: bool)
        ensures
            b == (self.config@.len() > 0),
    {
        !self.config.as_str().is_empty()
    }

    /// Whether logging is set up from a file: exactly when one was named.
    pub fn uses_log_config(&self) -> (b: bool)
        ensures
            b == (self.log_config@.len() > 0),
    {
        !self.log_config.as_str().is_empty()
    }
}

/// A value of a TOML document, as the toml crate parses it.
#[verifier::external_type_specification]
#[verifier::external_body]
pub struct ExTomlValue(toml::Value);

/// The error the toml crate gives for text that is no TOML document.
#[verifier::external_type_specification]
#[verifier::external_body]
pub struct ExTomlError(toml::de::Error);

/// Whether the toml crate reads `text` as a TOML document.
pub uninterp spec fn toml_parses(text: Seq<char>) -> bool;

/// The TOML value the toml crate reads from `text`, where it reads one.
pub uninterp spec fn parsed_toml(text: Seq<char>) -> toml::Value;

/// Calls `<toml::Value as FromStr>::from_str` on the text.
///
/// The contract states that the parse succeeds exactly on the texts of
/// `toml_parses`, and that the value it gives is `parsed_toml` of the text:
/// both are facts about the text alone.
#[verifier::external_body]
fn parse_toml(text: &String) -> (r: Result<toml::Value, toml::de::Error>)
    ensures
        r is Ok <==> toml_parses(text@),
        r matches Ok(v) ==> v == parsed_toml(text@),
{
    text.parse::<toml::Value>()
}

/// Reads the text of a config file as TOML: `None` exactly when it is no
/// TOML document.
pub fn parse_config_text(text: &String) -> (r: Option<toml::Value>)
    ensures
        r is Some <==> toml_parses(text@),
        r matches Some(v) ==> v == parsed_toml(text@),
{
    match parse_toml(text) {
        Ok(v) => Some(v),
        Err(_) => None,
    }
}

/// The entries of a config file that the service reads.
#[derive(Clone, Copy, Debug, PartialEq, Eq, Structural)]
pub enum ConfigKey {
    /// The table that lists the servers.
    Servers,
    /// The port the web service listens on.
    ListenPort,
}

pub open spec fn config_key_text(k: ConfigKey) -> Seq<char> {
    match k {
        ConfigKey::Servers => "servers"@,
        ConfigKey::ListenPort => "listen_port"@,
    }
}

impl ConfigKey {
    /// The name of the entry in the config file.
    pub fn key(self) -> (k: String)
        ensures
            k@ == config_key_text(self),
    {
        match self {
            ConfigKey::Servers => {
                proof { reveal_strlit("servers"); }
                "servers".to_string()
            },
            ConfigKey::ListenPort => {
                proof { reveal_strlit("listen_port"); }
                "listen_port".to_string()
            },
        }
    }
}

/// The servers that a config file lists, in order: the entries that could
/// be read as server configurations, with the others left out.
pub open spec fn decoded_servers(entries: Seq<Option<DnsServerConfig>>) -> Seq<DnsServerConfig>
    decreases entries.len(),
{
    if entries.len() == 0 {
        Seq::empty()
    } else {
        match entries.first() {
            Some(c) => seq![c] + decoded_servers(entries.drop_first()),
            None => decoded_servers(entries.drop_first()),
        }
    }
}

/// Keeps the server entries of a config file that could be read, in order.
/// `entries` is `None` where the file has no table of servers (or could not
/// be read at all), and then so is the result.
pub fn keep_decoded_servers(entries: Option<Vec<Option<DnsServerConfig>>>) -> (r: Option<Vec<DnsServerConfig>>)
    ensures
        match entries {
            None => r is None,
            Some(es) => r matches Some(v) && v@ == decoded_servers(es@),
        },
        entries matches Some(es) ==> (r matches Some(v) && v@.len() == count_some(es@)),
{
    proof {
        if entries is Some {
            law_every_readable_entry_is_kept(entries->0@);
        }
    }
    match entries {
        None => None,
        Some(es) => {
            let ghost all = es@;
            let mut rest = es;
            let mut kept: Vec<DnsServerConfig> = Vec::new();
            while rest.len() > 0
                invariant
                    kept@ + decoded_servers(rest@) == decoded_servers(all),
                decreases rest@.len(),
            {
                let ghost before = rest@;
                let e = rest.remove(0);
                assert(before.drop_first() == rest@);
                match e {
                    Some(c) => {
                        let ghost k = kept@;
                        kept.push(c);
                        assert(kept@ + decoded_servers(rest@) =~= k + (seq![c] + decoded_servers(
                            rest@,
                        )));
                    },
                    None => {},
                }
            }
            assert(kept@ + decoded_servers(rest@) =~= kept@);
            Some(kept)
        },
    }
}

/// What a config file gives: its servers, and the listen port where it sets
/// one.
#[derive(Clone, Debug)]
pub struct ConfigFile {
    pub servers: Vec<DnsServerConfig>,
    pub listen_port: Option<String>,
}

impl ConfigFile {
    /// What a config file gives, from its server entries (each read as a
    /// server configuration where it could be) and the listen port it sets. There is nothing where the file has no table of servers
    /// (`entries` is `None`); otherwise the servers are the entries that could
    /// be read, in order.
    pub fn from_parts(
        entries: Option<Vec<Option<DnsServerConfig>>>,
        listen_port: Option<String>,
    ) -> (r: Option<ConfigFile>)
        ensures
            match entries {
                None => r is None,
                Some(es) => r matches Some(f) && {
                    &&& f.servers@ == decoded_servers(es@)
                    &&& f.listen_port == listen_port
                },
            },
    {
        match keep_decoded_servers(entries) {
            None => None,
            Some(servers) => Some(ConfigFile { servers, listen_port }),
        }
    }
}

/// The value of a setting: the config file's where it sets one, else the
/// option's.
pub open spec fn file_or_option(file_value: Option<String>, option: String) -> Seq<char> {
    match file_value {
        Some(v) => v@,
        None => option@,
    }
}

fn choose_setting(file_value: Option<String>, option: &String) -> (r: String)
    ensures
        r@ == file_or_option(file_value, *option),
{
    match file_value {
        Some(v) => v,
        None => option.clone(),
    }
}

/// The name under which the server given on the command line is reported.
pub open spec fn command_line_name() -> Seq<char> {
    "command_line"@
}

/// `c` lists only the server given on the command line in `dsa`, reported
/// as `command_line`, asked on the given port for the chosen address
/// families.
pub open spec fn command_line_servers(dsa: DnsServiceArgs, c: DnsServerConfigs) -> bool {
    &&& c.servers@.len() == 1
    &&& c.servers@[0].name@ == command_line_name()
    &&& c.servers@[0].nameserver@ == dsa.dns_server@
    &&& c.servers@[0].ip4 == dsa.ip4
    &&& c.servers@[0].ip6 == dsa.ip6
    &&& c.servers@[0].port matches Some(p) && p@ == dsa.port@
}

/// `c` listens where `dsa` says, and runs as a server exactly when `dsa`
/// asks for it.
pub open spec fn listens_as_given(dsa: DnsServiceArgs, c: DnsServerConfigs) -> bool {
    &&& c.listen_port@ == dsa.listen_port@
    &&& c.listen_host@ == dsa.listen_host@
    &&& c.is_server == dsa.is_server
}

/// `c` has the servers of config file `f`, listens on the port `f` sets
/// (where it sets one, else the option's) and on the host of the options,
/// and runs as a server exactly when `dsa` asks for it.
pub open spec fn configured_by_file(dsa: DnsServiceArgs, f: ConfigFile, c: DnsServerConfigs) -> bool {
    &&& c.servers@ == f.servers@
    &&& c.listen_port@ == file_or_option(f.listen_port, dsa.listen_port)
    &&& c.listen_host@ == dsa.listen_host@
    &&& c.is_server == dsa.is_server
}

impl DnsServerConfigs {
    /// The servers to ask and the listen address.
    ///
    /// When a config file was named, the servers and the listen port come
    /// from what the file gave (`file`, what reading it returned), and there
    /// is nothing when it gave nothing: its servers, and its listen port where
    /// it sets one, the option's otherwise. Without a config file, the one server is
    /// the one given on the command line, reported as `command_line`, asked on
    /// the given port for the chosen address families, and the service
    /// listens on the port of the options. The listen host and the server
    /// mode always come from the options.
    pub fn from_service_args(dsa: &DnsServiceArgs, file: Option<ConfigFile>) -> (r: Option<DnsServerConfigs>)
        ensures
            dsa.config@.len() > 0 ==> (match file {
                None => r is None,
                Some(f) => r matches Some(c) && configured_by_file(*dsa, f, c),
            }),
            dsa.config@.len() == 0 ==> (r matches Some(c) && command_line_servers(*dsa, c)
                && listens_as_given(*dsa, c)),
            r matches Some(c) ==> c.is_server == dsa.is_server && c.listen_host@ == dsa.listen_host@,
    {
        let is_server = dsa.is_server;
        if dsa.uses_config_file() {
            match file {
                None => None,
                Some(f) => {
                    let listen_port = choose_setting(f.listen_port, &dsa.listen_port);
                    let listen_host = dsa.listen_host.clone();
                    Some(DnsServerConfigs { servers: f.servers, listen_port, listen_host, is_server })
                },
            }
        } else {
            proof { reveal_strlit("command_line"); }
            let dsc = DnsServerConfig {
                name: "command_line".to_string(),
                nameserver: dsa.dns_server.clone(),
                ip4: dsa.ip4,
                ip6: dsa.ip6,
                port: Some(dsa.port.clone()),
            };
            let mut servers: Vec<DnsServerConfig> = Vec::new();
            servers.push(dsc);
            Some(
                DnsServerConfigs {
                    servers,
                    listen_port: dsa.listen_port.clone(),
                    listen_host: dsa.listen_host.clone(),
                    is_server,
                },
            )
        }
    }
}

} // verus!
