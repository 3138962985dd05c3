//! Lookup services: which DNS queries a set of configured servers asks,
//! and how the answers of those queries become lookup results.
use vstd::prelude::*;

use crate::config::{DnsServerConfig, DnsServerConfigs};
use crate::laws::{
    address_records, law_every_address_record_is_reported, law_every_address_record_of_a_source_is_reported,
    law_results_follow_address_records, total_address_records,
};
use crate::net::{host_port, join_host_port};
use std::str::FromStr;
use trust_dns::proto::error::ProtoError;
use trust_dns::rr::Name;

verus! {

broadcast use vstd::string::group_string_axioms;

/// The kind of a DNS resource record, as far as lookups care.
#[derive(Clone, Copy, Debug, PartialEq, Eq, Structural)]
pub enum RecordKind {
    /// An IPv4 address record.
    A,
    /// An IPv6 address record.
    AAAA,
    /// Any other record type (CNAME, MX, ...).
    Other,
}

/// One answer record of a DNS response.
///
/// `address` is the record's data read as an IP address in text form, where
/// the data is an address at all.
#[derive(Clone, Debug)]
pub struct DnsAnswer {
    pub name: String,
    pub kind: RecordKind,
    pub address: Option<String>,
}

/// What an answer holds, as mathematical values.
pub struct AnswerView {
    pub name: Seq<char>,
    pub kind: RecordKind,
    pub address: Option<Seq<char>>,
}

impl View for DnsAnswer {
    type V = AnswerView;

    open spec fn view(&self) -> AnswerView {
        AnswerView {
            name: self.name@,
            kind: self.kind,
            address: match self.address {
                Some(a) => Some(a@),
                None => None,
            },
        }
    }
}

/// The answer of one DNS server to one query, with the times (in
/// milliseconds since the epoch) at which the query started and ended.
#[derive(Clone, Debug)]
pub struct DnsServerResponse {
    pub answers: Vec<DnsAnswer>,
    pub start_time: u64,
    pub end_time: u64,
}

/// What a response holds, as mathematical values.
pub struct ResponseView {
    pub answers: Seq<AnswerView>,
    pub start_time: u64,
    pub end_time: u64,
}

impl View for DnsServerResponse {
    type V = ResponseView;

    open spec fn view(&self) -> ResponseView {
        ResponseView {
            answers: self.answers@.map_values(|a: DnsAnswer| a@),
            start_time: self.start_time,
            end_time: self.end_time,
        }
    }
}

impl ResponseView {
    /// The query did not end before it started, and every address record
    /// carries an address.
    pub open spec fn wf(self) -> bool {
        &&& self.start_time <= self.end_time
        &&& forall|i: int|
            0 <= i < self.answers.len() && (#[trigger] self.answers[i]).kind != RecordKind::Other
                ==> self.answers[i].address is Some
    }

    /// How long the query took, in milliseconds.
    pub open spec fn elapsed(self) -> u64 {
        (self.end_time - self.start_time) as u64
    }
}

/// One lookup result: which source answered, the record's name, the address,
/// its type (`ip4` or `ip6`) and the time the query took.
#[derive(Clone, Debug)]
pub struct DnsLookupResult {
    pub source: String,
    pub name: String,
    pub address: String,
    pub atype: String,
    pub time_ms: u64,
}

/// What a lookup result holds, as mathematical values.
pub struct ResultView {
    pub source: Seq<char>,
    pub name: Seq<char>,
    pub address: Seq<char>,
    pub atype: Seq<char>,
    pub time_ms: u64,
}

impl View for DnsLookupResult {
    type V = ResultView;

    open spec fn view(&self) -> ResultView {
        ResultView {
            source: self.source@,
            name: self.name@,
            address: self.address@,
            atype: self.atype@,
            time_ms: self.time_ms,
        }
    }
}

/// The results of a lookup, in the order in which they were found.
#[derive(Clone, Debug)]
pub struct DnsLookupResults {
    pub results: Vec<DnsLookupResult>,
}

impl View for DnsLookupResults {
    type V = Seq<ResultView>;

    open spec fn view(&self) -> Seq<ResultView> {
        self.results@.map_values(|r: DnsLookupResult| r@)
    }
}

/// The address type that a result of the given record kind carries.
pub open spec fn atype_of(kind: RecordKind) -> Seq<char> {
    if kind == RecordKind::A {
        "ip4"@
    } else {
        "ip6"@
    }
}

/// The result that one answer gives, if any: address records give one,
/// every other record gives none.
pub open spec fn answer_result(a: AnswerView, source: Seq<char>, time_ms: u64) -> Option<ResultView> {
    if a.kind == RecordKind::Other {
        None
    } else {
        Some(
            ResultView {
                source,
                name: a.name,
                address: a.address.unwrap(),
                atype: atype_of(a.kind),
                time_ms,
            },
        )
    }
}

/// The results that a sequence of answers gives, in order.
pub open spec fn answers_results(answers: Seq<AnswerView>, source: Seq<char>, time_ms: u64) -> Seq<ResultView>
    decreases answers.len(),
{
    if answers.len() == 0 {
        Seq::empty()
    } else {
        let earlier = answers_results(answers.drop_last(), source, time_ms);
        match answer_result(answers.last(), source, time_ms) {
            Some(r) => earlier.push(r),
            None => earlier,
        }
    }
}

/// How many of the answers are address records (A or AAAA).
pub open spec fn address_answer_count(answers: Seq<AnswerView>) -> nat
    decreases answers.len(),
{
    if answers.len() == 0 {
        0
    } else {
        address_answer_count(answers.drop_last()) + if answers.last().kind == RecordKind::Other {
            0nat
        } else {
            1nat
        }
    }
}

/// The results that one response gives when `source` answered it.
pub open spec fn response_results(resp: ResponseView, source: Seq<char>) -> Seq<ResultView> {
    answers_results(resp.answers, source, resp.elapsed())
}

fn result_of_answer(a: &DnsAnswer, source: &String, time_ms: u64) -> (r: Option<DnsLookupResult>)
    requires
        a@.kind != RecordKind::Other ==> a@.address is Some,
    ensures
        match answer_result(a@, source@, time_ms) {
            Some(v) => r is Some && r->0@ == v,
            None => r is None,
        },
{
    match a.kind {
        RecordKind::A => {
            let address = match &a.address {
                Some(s) => s.clone(),
                None => { return None; },
            };
            proof { reveal_strlit("ip4"); }
            Some(DnsLookupResult {
                source: source.clone(),
                atype: "ip4".to_string(),
                name: a.name.clone(),
                address,
                time_ms,
            })
        },
        RecordKind::AAAA => {
            let address = match &a.address {
                Some(s) => s.clone(),
                None => { return None; },
            };
            proof { reveal_strlit("ip6"); }
            Some(DnsLookupResult {
                source: source.clone(),
                atype: "ip6".to_string(),
                name: a.name.clone(),
                address,
                time_ms,
            })
        },
        RecordKind::Other => None,
    }
}

/// Turns the address records of a response into lookup results from `source`,
/// in the order of the answers; every other record is skipped.
pub fn extract_results(dsr: &DnsServerResponse, source: &String) -> (r: DnsLookupResults)
    requires
        dsr@.wf(),
    ensures
        r@ == response_results(dsr@, source@),
        r@.len() == address_records(dsr@.answers).len(),
        forall|i: int|
            0 <= i < r@.len() ==> {
                let rec = #[trigger] address_records(dsr@.answers)[i];
                &&& r@[i].source == source@
                &&& r@[i].name == rec.name
                &&& r@[i].address == rec.address.unwrap()
                &&& r@[i].atype == (if rec.kind == RecordKind::A { "ip4"@ } else { "ip6"@ })
                &&& r@[i].time_ms == dsr@.end_time - dsr@.start_time
            },
{
    proof {
        law_results_follow_address_records(dsr@.answers, source@, dsr@.elapsed());
    }
    let mut results: Vec<DnsLookupResult> = Vec::new();
    let time_ms = dsr.end_time - dsr.start_time;
    let n = dsr.answers.len();
    for i in 0..n
        invariant
            n == dsr.answers@.len(),
            dsr@.wf(),
            time_ms == dsr@.elapsed(),
            results@.map_values(|r: DnsLookupResult| r@)
                == answers_results(dsr@.answers.take(i as int), source@, time_ms),
    {
        let ghost answers = dsr@.answers;
        assert(answers[i as int] == dsr.answers@[i as int]@);
        assert(answers.take(i + 1).drop_last() == answers.take(i as int));
        let ghost before = results@;
        match result_of_answer(&dsr.answers[i], source, time_ms) {
            Some(res) => {
                results.push(res);
                assert(results@.map_values(|r: DnsLookupResult| r@)
                    == before.map_values(|r: DnsLookupResult| r@).push(res@));
            },
            None => {},
        }
    }
    assert(dsr@.answers.take(n as int) == dsr@.answers);
    DnsLookupResults { results }
}

/// A name in the DNS, as trust-dns parses it from text.
#[verifier::external_type_specification]
#[verifier::external_body]
pub struct ExName(Name);

/// The error trust-dns gives for text that is no DNS name.
#[verifier::external_type_specification]
#[verifier::external_body]
pub struct ExProtoError(ProtoError);

/// Whether trust-dns reads `text` as a DNS name.
pub uninterp spec fn dns_name_parses(text: Seq<char>) -> bool;

/// The DNS name trust-dns reads from `text`, where it reads one.
pub uninterp spec fn parsed_dns_name(text: Seq<char>) -> Name;

/// Calls `<trust_dns::rr::Name as FromStr>::from_str` on the text.
///
/// The contract states that the parse succeeds exactly on the texts of
/// `dns_name_parses`, and that the name it gives is `parsed_dns_name` of the
/// text: both are facts about the text alone.
#[verifier::external_body]
fn parse_dns_name(text: &String) -> (r: Result<Name, ProtoError>)
    ensures
        r is Ok <==> dns_name_parses(text@),
        r matches Ok(n) ==> n == parsed_dns_name(text@),
{
    Name::from_str(text.as_str())
}

/// Whether `hostname` is a DNS name that queries can ask about.
pub fn is_dns_name(hostname: &String) -> (b: bool)
    ensures
        b == dns_name_parses(hostname@),
{
    match parse_dns_name(hostname) {
        Ok(_) => true,
        Err(_) => false,
    }
}

/// The DNS name of a host name that is one.
fn dns_name(hostname: &String) -> (n: Name)
    requires
        dns_name_parses(hostname@),
    ensures
        n == parsed_dns_name(hostname@),
{
    match parse_dns_name(hostname) {
        Ok(n) => n,
        Err(_) => vstd::pervasive::unreached(),
    }
}

/// The record type a query asks for.
#[derive(Clone, Copy, Debug, PartialEq, Eq, Structural)]
pub enum QueryType {
    /// IPv4 addresses.
    A,
    /// IPv6 addresses.
    AAAA,
}

/// One DNS query to send: which configured source asks, the server's
/// socket address as `host:port`, the host name and its parsed DNS name, and
/// the record type.
pub struct DnsQuery {
    pub source: String,
    pub server_address: String,
    pub hostname: String,
    pub name: Name,
    pub query_type: QueryType,
}

/// What a query holds, as mathematical values.
pub struct QueryView {
    pub source: Seq<char>,
    pub server_address: Seq<char>,
    pub hostname: Seq<char>,
    pub name: Name,
    pub query_type: QueryType,
}

impl View for DnsQuery {
    type V = QueryView;

    open spec fn view(&self) -> QueryView {
        QueryView {
            source: self.source@,
            server_address: self.server_address@,
            hostname: self.hostname@,
            name: self.name,
            query_type: self.query_type,
        }
    }
}

/// A DNS server that the service asks, and for which address families.
#[derive(Clone, Debug)]
pub struct DnsLookupService {
    pub name: String,
    pub dns_server: String,
    pub dns_port: String,
    pub use_tls: bool,
    pub ip4: bool,
    pub ip6: bool,
}

/// The record types a service asks for: A first if it asks for IPv4, then
/// AAAA if it asks for IPv6.
pub open spec fn service_query_types(s: DnsLookupService) -> Seq<QueryType> {
    (if s.ip4 { seq![QueryType::A] } else { Seq::empty() }) + (if s.ip6 {
        seq![QueryType::AAAA]
    } else {
        Seq::empty()
    })
}

/// How many queries a service sends for one lookup.
pub open spec fn query_count(s: DnsLookupService) -> nat {
    service_query_types(s).len()
}

/// The query of service `s` for record type `t` about `hostname`.
pub open spec fn service_query(s: DnsLookupService, hostname: Seq<char>, t: QueryType) -> QueryView {
    QueryView {
        source: s.name@,
        server_address: host_port(s.dns_server@, s.dns_port@),
        hostname,
        name: parsed_dns_name(hostname),
        query_type: t,
    }
}

/// The queries one service sends for one lookup, in order.
pub open spec fn service_plan(s: DnsLookupService, hostname: Seq<char>) -> Seq<QueryView> {
    service_query_types(s).map_values(|t: QueryType| service_query(s, hostname, t))
}

pub open spec fn queries_view(qs: Seq<DnsQuery>) -> Seq<QueryView> {
    qs.map_values(|q: DnsQuery| q@)
}

pub open spec fn responses_view(rs: Seq<DnsServerResponse>) -> Seq<ResponseView> {
    rs.map_values(|r: DnsServerResponse| r@)
}

pub open spec fn all_wf(rs: Seq<ResponseView>) -> bool {
    forall|i: int| 0 <= i < rs.len() ==> (#[trigger] rs[i]).wf()
}

/// The results that a sequence of responses from one source gives, in order.
pub open spec fn responses_results(rs: Seq<ResponseView>, source: Seq<char>) -> Seq<ResultView>
    decreases rs.len(),
{
    if rs.len() == 0 {
        Seq::empty()
    } else {
        responses_results(rs.drop_last(), source) + response_results(rs.last(), source)
    }
}

fn make_query(s: &DnsLookupService, hostname: &String, name: Name, t: QueryType) -> (q: DnsQuery)
    requires
        name == parsed_dns_name(hostname@),
    ensures
        q@ == service_query(*s, hostname@, t),
{
    DnsQuery {
        source: s.name.clone(),
        server_address: join_host_port(&s.dns_server, &s.dns_port),
        hostname: hostname.clone(),
        name,
        query_type: t,
    }
}

/// The results of the responses at `from..to`, all answered by `source`.
fn collect_results(responses: &Vec<DnsServerResponse>, from: usize, to: usize, source: &String) -> (r: DnsLookupResults)
    requires
        from <= to <= responses@.len(),
        all_wf(responses_view(responses@)),
    ensures
        r@ == responses_results(responses_view(responses@).subrange(from as int, to as int), source@),
{
    let ghost rs = responses_view(responses@);
    let mut results: Vec<DnsLookupResult> = Vec::new();
    let mut i = from;
    while i < to
        invariant
            from <= i <= to <= responses@.len(),
            rs == responses_view(responses@),
            all_wf(rs),
            results@.map_values(|r: DnsLookupResult| r@)
                == responses_results(rs.subrange(from as int, i as int), source@),
        decreases to - i,
    {
        assert(rs[i as int].wf());
        let mut more = extract_results(&responses[i], source);
        let ghost before = results@;
        let ghost found = more@;
        results.append(&mut more.results);
        assert(rs.subrange(from as int, i + 1).drop_last() == rs.subrange(from as int, i as int));
        assert(results@.map_values(|r: DnsLookupResult| r@)
            =~= before.map_values(|r: DnsLookupResult| r@) + found);
        i = i + 1;
    }
    DnsLookupResults { results }
}

impl DnsLookupService {
    /// The queries this service sends to look up `hostname`: an A query if it
    /// asks for IPv4, then an AAAA query if it asks for IPv6, each to
    /// `dns_server:dns_port` for the DNS name of `hostname`. A query is due
    /// only for a host name that is a DNS name.
    pub fn queries(&self, hostname: &String) -> (qs: Vec<DnsQuery>)
        requires
            query_count(*self) == 0 || dns_name_parses(hostname@),
        ensures
            queries_view(qs@) == service_plan(*self, hostname@),
            forall|i: int| 0 <= i < qs@.len() ==> (#[trigger] qs@[i]).name == parsed_dns_name(hostname@),
    {
        let mut qs: Vec<DnsQuery> = Vec::new();
        if self.ip4 {
            let name = dns_name(hostname);
            qs.push(make_query(self, hostname, name, QueryType::A));
        }
        if self.ip6 {
            let name = dns_name(hostname);
            qs.push(make_query(self, hostname, name, QueryType::AAAA));
        }
        assert(queries_view(qs@) =~= service_plan(*self, hostname@));
        assert forall|i: int| 0 <= i < qs@.len() implies (#[trigger] qs@[i]).name == parsed_dns_name(hostname@) by {
            assert(queries_view(qs@)[i] == qs@[i]@);
        }
        qs
    }

    /// The results of one lookup by this service, given the responses to its
    /// queries in the order of `queries`: the address records of each
    /// response, in order, with this service's name as their source.
    pub fn check(&self, responses: &Vec<DnsServerResponse>) -> (r: DnsLookupResults)
        requires
            responses@.len() == query_count(*self),
            all_wf(responses_view(responses@)),
        ensures
            r@ == responses_results(responses_view(responses@), self.name@),
            r@.len() == total_address_records(responses_view(responses@)),
    {
        proof {
            law_every_address_record_of_a_source_is_reported(responses_view(responses@), self.name@);
        }
        let r = collect_results(responses, 0, responses.len(), &self.name);
        assert(responses_view(responses@).subrange(0, responses@.len() as int)
            == responses_view(responses@));
        r
    }
}

/// The standard DNS port, on which a configured server without a port of
/// its own is asked.
pub open spec fn dns_port() -> Seq<char> {
    "53"@
}

/// The number of queries a service sends, counted in executable code.
fn count_queries(s: &DnsLookupService) -> (n: usize)
    ensures
        n == query_count(*s),
        n <= 2,
{
    let mut n: usize = 0;
    if s.ip4 {
        n = n + 1;
    }
    if s.ip6 {
        n = n + 1;
    }
    n
}

/// The port a configured server is asked on: its own where it has one,
/// else port 53.
pub open spec fn config_port(c: DnsServerConfig) -> Seq<char> {
    match c.port {
        Some(p) => p@,
        None => dns_port(),
    }
}

/// Whether `s` is the lookup service that configuration `c` describes: same
/// name, server and address families, asked on the configured port (port 53
/// where none is configured) without TLS.
pub open spec fn service_of_config(s: DnsLookupService, c: DnsServerConfig) -> bool {
    &&& s.name@ == c.name@
    &&& s.dns_server@ == c.nameserver@
    &&& s.dns_port@ == config_port(c)
    &&& !s.use_tls
    &&& s.ip4 == c.ip4
    &&& s.ip6 == c.ip6
}

fn service_from_config(c: &DnsServerConfig) -> (s: DnsLookupService)
    ensures
        service_of_config(s, *c),
{
    let dns_port = match &c.port {
        Some(p) => p.clone(),
        None => {
            proof { reveal_strlit("53"); }
            "53".to_string()
        },
    };
    DnsLookupService {
        name: c.name.clone(),
        dns_server: c.nameserver.clone(),
        dns_port,
        use_tls: false,
        ip4: c.ip4,
        ip6: c.ip6,
    }
}

/// Every service the lookup asks, and where the service listens.
#[derive(Clone, Debug)]
pub struct DnsLookupServices {
    pub servicers: Vec<DnsLookupService>,
    pub listen_port: String,
    pub listen_host: String,
}

/// How many queries a sequence of services sends for one lookup.
pub open spec fn plan_len(ss: Seq<DnsLookupService>) -> nat
    decreases ss.len(),
{
    if ss.len() == 0 {
        0
    } else {
        plan_len(ss.drop_last()) + query_count(ss.last())
    }
}

/// The queries a sequence of services sends for one lookup: those of each
/// service in turn.
pub open spec fn services_plan(ss: Seq<DnsLookupService>, hostname: Seq<char>) -> Seq<QueryView>
    decreases ss.len(),
{
    if ss.len() == 0 {
        Seq::empty()
    } else {
        services_plan(ss.drop_last(), hostname) + service_plan(ss.last(), hostname)
    }
}

/// The results of one lookup by a sequence of services, given the responses
/// to all their queries in plan order: each service's results in turn, each
/// from the responses to that service's queries.
pub open spec fn services_results(ss: Seq<DnsLookupService>, rs: Seq<ResponseView>) -> Seq<ResultView>
    decreases ss.len(),
{
    if ss.len() == 0 {
        Seq::empty()
    } else {
        let k = plan_len(ss.drop_last());
        services_results(ss.drop_last(), rs.take(k as int)) + responses_results(
            rs.subrange(k as int, (k + query_count(ss.last())) as int),
            ss.last().name@,
        )
    }
}

/// A prefix of the services sends no more queries than all of them.
pub proof fn lemma_plan_len_prefix(ss: Seq<DnsLookupService>, j: int)
    requires
        0 <= j <= ss.len(),
    ensures
        plan_len(ss.take(j)) <= plan_len(ss),
    decreases ss.len(),
{
    if j < ss.len() {
        assert(ss.drop_last().take(j) == ss.take(j));
        lemma_plan_len_prefix(ss.drop_last(), j);
    } else {
        assert(ss.take(j) == ss);
    }
}

/// Extending a prefix of the services by one adds that service's queries.
proof fn lemma_take_one_more(ss: Seq<DnsLookupService>, j: int)
    requires
        0 <= j < ss.len(),
    ensures
        ss.take(j + 1).drop_last() == ss.take(j),
        ss.take(j + 1).last() == ss[j],
        plan_len(ss.take(j + 1)) == plan_len(ss.take(j)) + query_count(ss[j]),
{
    assert(ss.take(j + 1).drop_last() == ss.take(j));
}

/// `s` holds one lookup service per server of `dsc`, in the same order, and
/// listens where `dsc` does.
pub open spec fn services_of_configs(dsc: DnsServerConfigs, s: DnsLookupServices) -> bool {
    &&& s.servicers@.len() == dsc.servers@.len()
    &&& forall|i: int|
        0 <= i < dsc.servers@.len() ==> service_of_config(#[trigger] s.servicers@[i], dsc.servers@[i])
    &&& s.listen_port@ == dsc.listen_port@
    &&& s.listen_host@ == dsc.listen_host@
}

impl DnsLookupServices {
    /// One lookup service per configured server, in the order of the
    /// configuration, each asked on its configured port (port 53 where it has
    /// none) without TLS; the listen address is kept.
    pub fn from_service_configs(dsc: &DnsServerConfigs) -> (r: Option<DnsLookupServices>)
        ensures
            r matches Some(s) && services_of_configs(*dsc, s),
    {
        let mut results: Vec<DnsLookupService> = Vec::new();
        let n = dsc.servers.len();
        for i in 0..n
            invariant
                n == dsc.servers@.len(),
                results@.len() == i,
                forall|k: int| 0 <= k < i ==> service_of_config(#[trigger] results@[k], dsc.servers@[k]),
        {
            results.push(service_from_config(&dsc.servers[i]));
        }
        Some(
            DnsLookupServices {
                servicers: results,
                listen_port: dsc.listen_port.clone(),
                listen_host: dsc.listen_host.clone(),
            },
        )
    }

    /// The queries that looking up `hostname` sends: those of each service in
    /// turn. A query is due only for a host name that is a DNS name.
    pub fn queries(&self, hostname: &String) -> (qs: Vec<DnsQuery>)
        requires
            plan_len(self.servicers@) == 0 || dns_name_parses(hostname@),
        ensures
            queries_view(qs@) == services_plan(self.servicers@, hostname@),
            forall|i: int| 0 <= i < qs@.len() ==> (#[trigger] qs@[i]).name == parsed_dns_name(hostname@),
    {
        let ghost ss = self.servicers@;
        let mut qs: Vec<DnsQuery> = Vec::new();
        let n = self.servicers.len();
        for j in 0..n
            invariant
                n == ss.len(),
                ss == self.servicers@,
                plan_len(ss) == 0 || dns_name_parses(hostname@),
                queries_view(qs@) == services_plan(ss.take(j as int), hostname@),
                forall|i: int| 0 <= i < qs@.len() ==> (#[trigger] qs@[i]).name == parsed_dns_name(hostname@),
        {
            proof {
                lemma_take_one_more(ss, j as int);
                lemma_plan_len_prefix(ss, j + 1);
            }
            assert(self.servicers[j as int] == ss[j as int]);
            let mut more = self.servicers[j].queries(hostname);
            let ghost before = qs@;
            let ghost found = more@;
            qs.append(&mut more);
            assert(queries_view(qs@) =~= queries_view(before) + queries_view(found));
            assert forall|i: int| 0 <= i < qs@.len() implies (#[trigger] qs@[i]).name == parsed_dns_name(hostname@) by {
                if i < before.len() {
                    assert(qs@[i] == before[i]);
                } else {
                    assert(qs@[i] == found[i - before.len()]);
                }
            }
        }
        assert(ss.take(n as int) == ss);
        qs
    }

    /// Whether looking up a host sends any query at all: exactly when some
    /// service asks for some address family.
    pub fn sends_queries(&self) -> (b: bool)
        ensures
            b == (plan_len(self.servicers@) > 0),
    {
        let ghost ss = self.servicers@;
        let n = self.servicers.len();
        for j in 0..n
            invariant
                n == ss.len(),
                ss == self.servicers@,
                plan_len(ss.take(j as int)) == 0,
        {
            proof {
                lemma_take_one_more(ss, j as int);
                lemma_plan_len_prefix(ss, j + 1);
            }
            assert(self.servicers[j as int] == ss[j as int]);
            if count_queries(&self.servicers[j]) > 0 {
                return true;
            }
        }
        assert(ss.take(n as int) == ss);
        false
    }

    /// The queries that looking up `hostname` sends, where they can be sent:
    /// `None` exactly when some query is due and `hostname` is no DNS name.
    pub fn try_queries(&self, hostname: &String) -> (r: Option<Vec<DnsQuery>>)
        ensures
            r is Some <==> (plan_len(self.servicers@) == 0 || dns_name_parses(hostname@)),
            r matches Some(qs) ==> queries_view(qs@) == services_plan(self.servicers@, hostname@),
            r matches Some(qs) ==> forall|i: int|
                0 <= i < qs@.len() ==> (#[trigger] qs@[i]).name == parsed_dns_name(hostname@),
    {
        if is_dns_name(hostname) || !self.sends_queries() {
            Some(self.queries(hostname))
        } else {
            None
        }
    }

    /// The results of one lookup, given the responses to all its queries in
    /// the order of `queries`: the results of each service in turn, each
    /// from the responses to that service's own queries.
    pub fn check(&self, responses: &Vec<DnsServerResponse>) -> (r: DnsLookupResults)
        requires
            responses@.len() == plan_len(self.servicers@),
            all_wf(responses_view(responses@)),
        ensures
            r@ == services_results(self.servicers@, responses_view(responses@)),
            r@.len() == total_address_records(responses_view(responses@)),
    {
        proof {
            law_every_address_record_is_reported(self.servicers@, responses_view(responses@));
        }
        let ghost ss = self.servicers@;
        let ghost rs = responses_view(responses@);
        let mut results: Vec<DnsLookupResult> = Vec::new();
        let mut offset: usize = 0;
        let n = self.servicers.len();
        for j in 0..n
            invariant
                n == ss.len(),
                ss == self.servicers@,
                rs == responses_view(responses@),
                responses@.len() == plan_len(ss),
                all_wf(rs),
                offset == plan_len(ss.take(j as int)),
                results@.map_values(|r: DnsLookupResult| r@)
                    == services_results(ss.take(j as int), rs.take(offset as int)),
        {
            proof {
                lemma_take_one_more(ss, j as int);
                lemma_plan_len_prefix(ss, j + 1);
            }
            let service = &self.servicers[j];
            let k = count_queries(service);
            assert(*service == ss[j as int]);
            let total = responses.len();
            assert(offset + k <= total);
            let next = offset + k;
            let mut more = collect_results(responses, offset, next, &service.name);
            let ghost before = results@;
            let ghost found = more@;
            results.append(&mut more.results);
            proof {
                let t = ss.take(j + 1);
                assert(rs.take(next as int).take(offset as int) == rs.take(offset as int));
                assert(rs.take(next as int).subrange(offset as int, next as int)
                    == rs.subrange(offset as int, next as int));
                assert(services_results(t, rs.take(next as int))
                    == services_results(ss.take(j as int), rs.take(offset as int)) + found);
                assert(results@.map_values(|r: DnsLookupResult| r@)
                    =~= before.map_values(|r: DnsLookupResult| r@) + found);
            }
            offset = next;
        }
        assert(ss.take(n as int) == ss);
        assert(rs.take(offset as int) == rs);
        DnsLookupResults { results }
    }
}

/// A request to look up one host name.
#[derive(Clone, Debug)]
pub struct DnsLookupRequest {
    pub hostname: String,
}

impl DnsLookupRequest {
    /// The request to look up `hostname`; every key gives one.
    pub fn from_key(hostname: &String) -> (r: Option<DnsLookupRequest>)
        ensures
            r matches Some(req) && req.hostname@ == hostname@,
    {
        Some(DnsLookupRequest { hostname: hostname.clone() })
    }
}

/// Milliseconds in a time given as whole seconds and the nanoseconds of the
/// last, unfinished second.
pub open spec fn millis_of(secs: u64, subsec_nanos: u32) -> int {
    secs * 1000 + subsec_nanos / 1_000_000
}

/// The time of a query in milliseconds since the epoch, from the clock's
/// reading as seconds and nanoseconds since the epoch; a clock set before the
/// epoch (`None`) reads as 0.
pub fn epoch_millis(since_epoch: Option<(u64, u32)>) -> (r: u64)
    requires
        since_epoch matches Some((secs, nanos)) ==> millis_of(secs, nanos) <= u64::MAX,
    ensures
        r == match since_epoch {
            None => 0,
            Some((secs, nanos)) => millis_of(secs, nanos),
        },
{
    match since_epoch {
        None => 0,
        Some((secs, nanos)) => secs * 1000 + (nanos as u64) / 1_000_000,
    }
}

impl DnsServerResponse {
    /// Whether the response can be turned into results: it did not end
    /// before it started, and every address record carries an address.
    pub fn is_well_formed(&self) -> (b: bool)
        ensures
            b == self@.wf(),
    {
        if self.end_time < self.start_time {
            return false;
        }
        let n = self.answers.len();
        for i in 0..n
            invariant
                n == self.answers@.len(),
                forall|k: int| 0 <= k < i ==> (#[trigger] self@.answers[k]).kind != RecordKind::Other
                    ==> self@.answers[k].address is Some,
        {
            let a = &self.answers[i];
            assert(self@.answers[i as int] == a@);
            let missing = match a.kind {
                RecordKind::Other => false,
                _ => a.address.is_none(),
            };
            if missing {
                return false;
            }
        }
        true
    }
}

} // verus!
