//! Properties of the lookup service that span several of its functions.
use vstd::prelude::*;

use crate::config::{
    command_line_name, command_line_servers, configured_by_file, decoded_servers, listens_as_given,
    settled_families, ConfigFile, DnsServerConfig, DnsServerConfigs, DnsServiceArgs,
};
use crate::lookup::{
    address_answer_count, answer_result, answers_results, atype_of, parsed_dns_name, plan_len, query_count,
    response_results, responses_results, service_plan, services_of_configs, services_plan,
    services_results, AnswerView, DnsLookupService, DnsLookupServices, RecordKind, ResponseView,
    ResultView,
};
use crate::net::host_port;

verus! {

/// What every result of one answered query looks like: it names the source
/// that answered, its address type is `ip4` or `ip6`, and its time is the
/// time the query took.
pub open spec fn result_from(r: ResultView, source: Seq<char>, time_ms: u64) -> bool {
    &&& r.source == source
    &&& (r.atype == "ip4"@ || r.atype == "ip6"@)
    &&& r.time_ms == time_ms
}

/// The answers of a response give exactly one result per address record
/// (A or AAAA) and none for any other record; each result names the source
/// that answered, is typed `ip4` or `ip6`, and carries the query's time.
pub proof fn law_one_result_per_address_record(answers: Seq<AnswerView>, source: Seq<char>, time_ms: u64)
    ensures
        answers_results(answers, source, time_ms).len() == address_answer_count(answers),
        forall|i: int|
            0 <= i < answers_results(answers, source, time_ms).len() ==> result_from(
                #[trigger] answers_results(answers, source, time_ms)[i],
                source,
                time_ms,
            ),
    decreases answers.len(),
{
    if answers.len() > 0 {
        law_one_result_per_address_record(answers.drop_last(), source, time_ms);
        let k = answers.last().kind;
        assert(atype_of(k) == "ip4"@ || atype_of(k) == "ip6"@);
    }
}

/// How many of the answers are records of kind `k`.
pub open spec fn answers_of_kind(answers: Seq<AnswerView>, k: RecordKind) -> nat
    decreases answers.len(),
{
    if answers.len() == 0 {
        0
    } else {
        answers_of_kind(answers.drop_last(), k) + if answers.last().kind == k {
            1nat
        } else {
            0nat
        }
    }
}

/// How many of the results have address type `atype`.
pub open spec fn results_of_type(results: Seq<ResultView>, atype: Seq<char>) -> nat
    decreases results.len(),
{
    if results.len() == 0 {
        0
    } else {
        results_of_type(results.drop_last(), atype) + if results.last().atype == atype {
            1nat
        } else {
            0nat
        }
    }
}

/// A response's `ip4` results are as many as its A records, and its `ip6`
/// results as many as its AAAA records.
pub proof fn law_results_typed_by_record(answers: Seq<AnswerView>, source: Seq<char>, time_ms: u64)
    ensures
        results_of_type(answers_results(answers, source, time_ms), "ip4"@) == answers_of_kind(
            answers,
            RecordKind::A,
        ),
        results_of_type(answers_results(answers, source, time_ms), "ip6"@) == answers_of_kind(
            answers,
            RecordKind::AAAA,
        ),
    decreases answers.len(),
{
    reveal_strlit("ip4");
    reveal_strlit("ip6");
    assert("ip4"@[2] != "ip6"@[2]);
    if answers.len() > 0 {
        law_results_typed_by_record(answers.drop_last(), source, time_ms);
        let earlier = answers_results(answers.drop_last(), source, time_ms);
        match answer_result(answers.last(), source, time_ms) {
            Some(r) => {
                assert(earlier.push(r).drop_last() == earlier);
            },
            None => {},
        }
    }
}

/// Every result from a source's responses names that source and is typed
/// `ip4` or `ip6`.
pub proof fn law_results_name_their_source(rs: Seq<ResponseView>, source: Seq<char>)
    ensures
        forall|i: int|
            0 <= i < responses_results(rs, source).len() ==> {
                &&& (#[trigger] responses_results(rs, source)[i]).source == source
                &&& (responses_results(rs, source)[i].atype == "ip4"@
                    || responses_results(rs, source)[i].atype == "ip6"@)
            },
    decreases rs.len(),
{
    if rs.len() > 0 {
        law_results_name_their_source(rs.drop_last(), source);
        let last = rs.last();
        law_one_result_per_address_record(last.answers, source, last.elapsed());
        let earlier = responses_results(rs.drop_last(), source);
        let found = response_results(last, source);
        assert forall|i: int| 0 <= i < responses_results(rs, source).len() implies {
            &&& (#[trigger] responses_results(rs, source)[i]).source == source
            &&& (responses_results(rs, source)[i].atype == "ip4"@
                || responses_results(rs, source)[i].atype == "ip6"@)
        } by {
            if i >= earlier.len() {
                assert(responses_results(rs, source)[i] == found[i - earlier.len()]);
            } else {
                assert(responses_results(rs, source)[i] == earlier[i]);
            }
        }
    }
}

/// Every result of a lookup names one of the services that were asked, and
/// is typed `ip4` or `ip6`.
pub proof fn law_results_come_from_asked_services(ss: Seq<DnsLookupService>, rs: Seq<ResponseView>)
    ensures
        forall|i: int|
            0 <= i < services_results(ss, rs).len() ==> {
                &&& exists|j: int|
                    0 <= j < ss.len() && (#[trigger] services_results(ss, rs)[i]).source
                        == ss[j].name@
                &&& (services_results(ss, rs)[i].atype == "ip4"@ || services_results(ss, rs)[i].atype
                    == "ip6"@)
            },
    decreases ss.len(),
{
    if ss.len() > 0 {
        let init = ss.drop_last();
        let k = plan_len(init);
        law_results_come_from_asked_services(init, rs.take(k as int));
        let mine = rs.subrange(k as int, (k + query_count(ss.last())) as int);
        law_results_name_their_source(mine, ss.last().name@);
        let earlier = services_results(init, rs.take(k as int));
        let found = responses_results(mine, ss.last().name@);
        assert forall|i: int| 0 <= i < services_results(ss, rs).len() implies {
            &&& exists|j: int|
                0 <= j < ss.len() && (#[trigger] services_results(ss, rs)[i]).source == ss[j].name@
            &&& (services_results(ss, rs)[i].atype == "ip4"@ || services_results(ss, rs)[i].atype
                == "ip6"@)
        } by {
            if i >= earlier.len() {
                assert(services_results(ss, rs)[i] == found[i - earlier.len()]);
                assert(services_results(ss, rs)[i].source == ss[ss.len() - 1].name@);
            } else {
                assert(services_results(ss, rs)[i] == earlier[i]);
                let j = choose|j: int| 0 <= j < init.len() && earlier[i].source == init[j].name@;
                assert(init[j] == ss[j]);
            }
        }
    }
}

/// A lookup sends exactly as many queries as its results are drawn from:
/// the queries of the services number `plan_len`, the number of responses
/// that `check` takes.
pub proof fn law_one_response_per_query(ss: Seq<DnsLookupService>, hostname: Seq<char>)
    ensures
        services_plan(ss, hostname).len() == plan_len(ss),
    decreases ss.len(),
{
    if ss.len() > 0 {
        law_one_response_per_query(ss.drop_last(), hostname);
    }
}

/// Joining two lists of services sends the queries of the first, then those
/// of the second.
pub proof fn law_plan_of_joined_services(ss1: Seq<DnsLookupService>, ss2: Seq<DnsLookupService>, hostname: Seq<char>)
    ensures
        plan_len(ss1 + ss2) == plan_len(ss1) + plan_len(ss2),
        services_plan(ss1 + ss2, hostname) == services_plan(ss1, hostname) + services_plan(ss2, hostname),
    decreases ss2.len(),
{
    if ss2.len() == 0 {
        assert(ss1 + ss2 == ss1);
    } else {
        law_plan_of_joined_services(ss1, ss2.drop_last(), hostname);
        assert((ss1 + ss2).drop_last() == ss1 + ss2.drop_last());
        assert((ss1 + ss2).last() == ss2.last());
    }
}

/// Looking up with two lists of services joined gives the results of the
/// first list, from the responses to its queries, followed by those of the
/// second, from the responses to the rest.
pub proof fn law_results_of_joined_services(ss1: Seq<DnsLookupService>, ss2: Seq<DnsLookupService>, rs: Seq<ResponseView>)
    requires
        rs.len() == plan_len(ss1) + plan_len(ss2),
    ensures
        services_results(ss1 + ss2, rs) == services_results(ss1, rs.take(plan_len(ss1) as int))
            + services_results(ss2, rs.skip(plan_len(ss1) as int)),
    decreases ss2.len(),
{
    let p1 = plan_len(ss1) as int;
    if ss2.len() == 0 {
        assert(ss1 + ss2 == ss1);
        assert(rs.take(p1) == rs);
    } else {
        let ss = ss1 + ss2;
        let init2 = ss2.drop_last();
        assert(ss.drop_last() == ss1 + init2);
        assert(ss.last() == ss2.last());
        law_plan_of_joined_services(ss1, init2, Seq::empty());
        let k = plan_len(ss1 + init2) as int;
        let q = query_count(ss2.last()) as int;
        law_plan_of_joined_services(ss1, ss2, Seq::empty());
        law_results_of_joined_services(ss1, init2, rs.take(k));
        assert(rs.take(k).take(p1) == rs.take(p1));
        assert(rs.take(k).skip(p1) == rs.skip(p1).take(k - p1));
        assert(rs.skip(p1).subrange(k - p1, k - p1 + q) == rs.subrange(k, k + q));
    }
}

/// Settling the address families leaves at least one of them asked for.
pub proof fn law_settled_args_ask_a_family(a: DnsServiceArgs, b: DnsServiceArgs)
    requires
        settled_families(a, b),
    ensures
        b.ip4 || b.ip6,
{
}

/// Settling the address families a second time changes nothing.
pub proof fn law_settling_is_idempotent(a: DnsServiceArgs, b: DnsServiceArgs, c: DnsServiceArgs)
    requires
        settled_families(a, b),
        settled_families(b, c),
    ensures
        c == b,
{
}

/// A lookup set up from the command line alone (no config file, families
/// settled) sends one or two queries, all from `command_line` to the given
/// server on the given port, each for the DNS name of the host.
pub proof fn law_command_line_lookup(
    a: DnsServiceArgs,
    b: DnsServiceArgs,
    c: DnsServerConfigs,
    s: DnsLookupServices,
    hostname: Seq<char>,
)
    requires
        settled_families(a, b),
        command_line_servers(b, c),
        services_of_configs(c, s),
    ensures
        1 <= plan_len(s.servicers@) <= 2,
        forall|i: int|
            0 <= i < services_plan(s.servicers@, hostname).len() ==> {
                &&& (#[trigger] services_plan(s.servicers@, hostname)[i]).source == command_line_name()
                &&& services_plan(s.servicers@, hostname)[i].server_address == host_port(
                    b.dns_server@,
                    b.port@,
                )
                &&& services_plan(s.servicers@, hostname)[i].name == parsed_dns_name(hostname)
            },
{
    let ss = s.servicers@;
    let none = Seq::<DnsLookupService>::empty();
    assert(ss.drop_last() == none);
    assert(ss.last() == ss[0]);
    assert(services_plan(none, hostname).len() == 0);
    assert(plan_len(none) == 0);
    assert(services_plan(ss, hostname) == service_plan(ss[0], hostname));
    assert(plan_len(ss) == query_count(ss[0]));
}

/// The address records (A and AAAA) among the answers, in order.
pub open spec fn address_records(answers: Seq<AnswerView>) -> Seq<AnswerView>
    decreases answers.len(),
{
    if answers.len() == 0 {
        Seq::empty()
    } else {
        let earlier = address_records(answers.drop_last());
        if answers.last().kind == RecordKind::Other {
            earlier
        } else {
            earlier.push(answers.last())
        }
    }
}

/// How many address records all the responses hold together.
pub open spec fn total_address_records(rs: Seq<ResponseView>) -> nat
    decreases rs.len(),
{
    if rs.len() == 0 {
        0
    } else {
        total_address_records(rs.drop_last()) + address_records(rs.last().answers).len()
    }
}

/// How many of the entries are `Some`.
pub open spec fn count_some(es: Seq<Option<DnsServerConfig>>) -> nat
    decreases es.len(),
{
    if es.len() == 0 {
        0
    } else {
        count_some(es.drop_last()) + if es.last() is Some {
            1nat
        } else {
            0nat
        }
    }
}

/// The results of a list of answers are, one for one and in order, its
/// address records: the i-th result names the source that answered, carries
/// the i-th address record's name and address, is typed `ip4` for an A
/// record and `ip6` for an AAAA record, and carries the query's time.
pub proof fn law_results_follow_address_records(answers: Seq<AnswerView>, source: Seq<char>, time_ms: u64)
    ensures
        answers_results(answers, source, time_ms).len() == address_records(answers).len(),
        forall|i: int|
            0 <= i < address_records(answers).len() ==> {
                let rec = #[trigger] address_records(answers)[i];
                let res = answers_results(answers, source, time_ms)[i];
                &&& res.source == source
                &&& res.name == rec.name
                &&& res.address == rec.address.unwrap()
                &&& res.atype == (if rec.kind == RecordKind::A { "ip4"@ } else { "ip6"@ })
                &&& res.time_ms == time_ms
            },
        forall|i: int|
            0 <= i < address_records(answers).len() ==> (#[trigger] address_records(answers)[i]).kind
                != RecordKind::Other,
    decreases answers.len(),
{
    if answers.len() > 0 {
        law_results_follow_address_records(answers.drop_last(), source, time_ms);
        let init = answers.drop_last();
        let last = answers.last();
        let earlier = answers_results(init, source, time_ms);
        if last.kind != RecordKind::Other {
            let r = answer_result(last, source, time_ms).unwrap();
            assert(answers_results(answers, source, time_ms) == earlier.push(r));
            assert(address_records(answers) == address_records(init).push(last));
            assert forall|i: int| 0 <= i < address_records(answers).len() implies {
                let rec = #[trigger] address_records(answers)[i];
                let res = answers_results(answers, source, time_ms)[i];
                &&& res.source == source
                &&& res.name == rec.name
                &&& res.address == rec.address.unwrap()
                &&& res.atype == (if rec.kind == RecordKind::A { "ip4"@ } else { "ip6"@ })
                &&& res.time_ms == time_ms
            } by {
                if i < address_records(init).len() {
                    assert(address_records(answers)[i] == address_records(init)[i]);
                    assert(answers_results(answers, source, time_ms)[i] == earlier[i]);
                }
            }
        }
    }
}

/// A result's address is there because its record carries one: on
/// well-formed answers every address record has an address, so each result
/// holds exactly the address of its record.
pub proof fn law_results_carry_record_addresses(resp: ResponseView, source: Seq<char>)
    requires
        resp.wf(),
    ensures
        forall|i: int|
            0 <= i < address_records(resp.answers).len() ==> (#[trigger] address_records(
                resp.answers,
            )[i]).address is Some,
    decreases resp.answers.len(),
{
    lemma_address_records_from_answers(resp.answers);
    assert forall|i: int| 0 <= i < address_records(resp.answers).len() implies (#[trigger] address_records(
        resp.answers,
    )[i]).address is Some by {
        let j = choose|j: int| 0 <= j < resp.answers.len() && resp.answers[j] == address_records(resp.answers)[i];
        assert(resp.answers[j].kind != RecordKind::Other);
    }
}

proof fn lemma_address_records_from_answers(answers: Seq<AnswerView>)
    ensures
        forall|i: int|
            0 <= i < address_records(answers).len() ==> exists|j: int|
                0 <= j < answers.len() && answers[j] == #[trigger] address_records(answers)[i],
        forall|i: int|
            0 <= i < address_records(answers).len() ==> (#[trigger] address_records(answers)[i]).kind
                != RecordKind::Other,
    decreases answers.len(),
{
    if answers.len() > 0 {
        let init = answers.drop_last();
        lemma_address_records_from_answers(init);
        assert forall|i: int| 0 <= i < address_records(answers).len() implies exists|j: int|
            0 <= j < answers.len() && answers[j] == #[trigger] address_records(answers)[i] by {
            if i < address_records(init).len() {
                let j = choose|j: int| 0 <= j < init.len() && init[j] == address_records(init)[i];
                assert(answers[j] == init[j]);
            } else {
                assert(answers[answers.len() - 1] == address_records(answers)[i]);
            }
        }
    }
}

/// The results of one response are the results of its answers, timed by
/// how long the query took.
pub proof fn law_results_of_one_response(r: ResponseView, source: Seq<char>)
    ensures
        responses_results(seq![r], source) == answers_results(r.answers, source, (r.end_time - r.start_time) as u64),
{
    let rs = seq![r];
    assert(rs.drop_last() == Seq::<ResponseView>::empty());
    assert(responses_results(Seq::<ResponseView>::empty(), source) == Seq::<ResultView>::empty());
    assert(responses_results(rs, source) =~= answers_results(r.answers, source, (r.end_time - r.start_time) as u64));
}

/// The results of two runs of responses from one source are those of the
/// first run followed by those of the second: no response's results are
/// cut or mixed with another's.
pub proof fn law_results_of_joined_responses(rs1: Seq<ResponseView>, rs2: Seq<ResponseView>, source: Seq<char>)
    ensures
        responses_results(rs1 + rs2, source) == responses_results(rs1, source) + responses_results(rs2, source),
    decreases rs2.len(),
{
    if rs2.len() == 0 {
        assert(rs1 + rs2 == rs1);
        assert(responses_results(rs2, source) == Seq::<ResultView>::empty());
        assert(responses_results(rs1, source) + responses_results(rs2, source) =~= responses_results(rs1, source));
    } else {
        law_results_of_joined_responses(rs1, rs2.drop_last(), source);
        assert((rs1 + rs2).drop_last() == rs1 + rs2.drop_last());
        assert((rs1 + rs2).last() == rs2.last());
        assert(responses_results(rs1 + rs2, source) =~= responses_results(rs1, source) + responses_results(rs2, source));
    }
}

proof fn lemma_total_of_joined(rs1: Seq<ResponseView>, rs2: Seq<ResponseView>)
    ensures
        total_address_records(rs1 + rs2) == total_address_records(rs1) + total_address_records(rs2),
    decreases rs2.len(),
{
    if rs2.len() == 0 {
        assert(rs1 + rs2 == rs1);
    } else {
        lemma_total_of_joined(rs1, rs2.drop_last());
        assert((rs1 + rs2).drop_last() == rs1 + rs2.drop_last());
        assert((rs1 + rs2).last() == rs2.last());
    }
}

/// The responses of one source give exactly one result per address record
/// they hold, all records of all responses counted.
pub proof fn law_every_address_record_of_a_source_is_reported(rs: Seq<ResponseView>, source: Seq<char>)
    ensures
        responses_results(rs, source).len() == total_address_records(rs),
    decreases rs.len(),
{
    if rs.len() > 0 {
        law_every_address_record_of_a_source_is_reported(rs.drop_last(), source);
        let last = rs.last();
        law_results_follow_address_records(last.answers, source, last.elapsed());
    }
}

/// A lookup by a single service gives the results of that service's
/// responses, all of them, under the service's name.
pub proof fn law_results_of_one_service(s: DnsLookupService, rs: Seq<ResponseView>)
    requires
        rs.len() == query_count(s),
    ensures
        services_results(seq![s], rs) == responses_results(rs, s.name@),
{
    let ss = seq![s];
    let none = Seq::<DnsLookupService>::empty();
    assert(ss.drop_last() == none);
    assert(ss.last() == s);
    assert(plan_len(none) == 0);
    assert(services_results(none, rs.take(0)) == Seq::<ResultView>::empty());
    assert(rs.subrange(0, query_count(s) as int) == rs);
    assert(services_results(ss, rs) =~= responses_results(rs, s.name@));
}

/// A lookup by a list of services reports every address record of every
/// response: its results are exactly as many as the A and AAAA records of
/// all the responses together.
pub proof fn law_every_address_record_is_reported(ss: Seq<DnsLookupService>, rs: Seq<ResponseView>)
    requires
        rs.len() == plan_len(ss),
    ensures
        services_results(ss, rs).len() == total_address_records(rs),
    decreases ss.len(),
{
    if ss.len() > 0 {
        let init = ss.drop_last();
        let k = plan_len(init) as int;
        let q = query_count(ss.last()) as int;
        law_every_address_record_is_reported(init, rs.take(k));
        let mine = rs.subrange(k, k + q);
        law_every_address_record_of_a_source_is_reported(mine, ss.last().name@);
        assert(rs == rs.take(k) + mine);
        lemma_total_of_joined(rs.take(k), mine);
    }
}

/// A configuration from a config file has the file's servers and runs as a
/// server exactly when the options ask for it.
pub proof fn law_config_file_keeps_server_mode(dsa: DnsServiceArgs, f: ConfigFile, c: DnsServerConfigs)
    requires
        configured_by_file(dsa, f, c),
    ensures
        c.is_server == dsa.is_server,
        c.servers@ == f.servers@,
        c.listen_host@ == dsa.listen_host@,
{
}

/// A configuration from the command line runs as a server exactly when the
/// options ask for it.
pub proof fn law_command_line_keeps_server_mode(dsa: DnsServiceArgs, c: DnsServerConfigs)
    requires
        listens_as_given(dsa, c),
    ensures
        c.is_server == dsa.is_server,
{
}

/// The servers read from two runs of entries are those of the first run
/// followed by those of the second.
pub proof fn law_decoded_servers_of_joined_entries(es1: Seq<Option<DnsServerConfig>>, es2: Seq<Option<DnsServerConfig>>)
    ensures
        decoded_servers(es1 + es2) == decoded_servers(es1) + decoded_servers(es2),
    decreases es1.len(),
{
    if es1.len() == 0 {
        assert(es1 + es2 == es2);
        assert(decoded_servers(es1) + decoded_servers(es2) =~= decoded_servers(es2));
    } else {
        law_decoded_servers_of_joined_entries(es1.drop_first(), es2);
        assert((es1 + es2).first() == es1.first());
        assert((es1 + es2).drop_first() == es1.drop_first() + es2);
        match es1.first() {
            Some(c) => {
                assert(decoded_servers(es1 + es2) =~= decoded_servers(es1) + decoded_servers(es2));
            },
            None => {},
        }
    }
}

/// A readable entry gives its server, and an unreadable one gives none.
pub proof fn law_decoded_server_of_one_entry(c: DnsServerConfig)
    ensures
        decoded_servers(seq![Some(c)]) == seq![c],
        decoded_servers(seq![None::<DnsServerConfig>]) == Seq::<DnsServerConfig>::empty(),
{
    let none = Seq::<Option<DnsServerConfig>>::empty();
    assert(seq![Some(c)].drop_first() == none);
    assert(seq![None::<DnsServerConfig>].drop_first() == none);
    assert(decoded_servers(none) == Seq::<DnsServerConfig>::empty());
    assert(decoded_servers(seq![Some(c)]) =~= seq![c]);
}

/// Every readable entry is kept: the servers are exactly as many as the
/// entries that could be read.
pub proof fn law_every_readable_entry_is_kept(es: Seq<Option<DnsServerConfig>>)
    ensures
        decoded_servers(es).len() == count_some(es),
    decreases es.len(),
{
    if es.len() > 0 {
        law_every_readable_entry_is_kept(es.drop_last());
        law_decoded_servers_of_joined_entries(es.drop_last(), seq![es.last()]);
        assert(es == es.drop_last() + seq![es.last()]);
        match es.last() {
            Some(c) => law_decoded_server_of_one_entry(c),
            None => law_decoded_server_of_one_entry(arbitrary()),
        }
    }
}

} // verus!
