//! The rules the fixture peer answers by.
//!
//! The fixture peer serves records the engine published, optionally replaced
//! by a scenario's own, and composes nothing. What it decides is here: which
//! scenarios exist and which of them answer at all, how a record is looked up,
//! when a request's version meets the published refusal, and how a method
//! answered with a sequence of records walks through it.

use serde_json::Value;
use vstd::prelude::*;
use crate::management::contract::{supported_range, window};
use crate::management::vocabulary::opt_view;
use crate::text::{
    chars_of, concat, concat3, decimal, decimal_string, is_prefix, owned, push_str, str_eq, string_of,
    strip_prefix, trim, trimmed, views,
};

verus! {

/// Every scenario, by name.
pub open spec fn scenario_table() -> Seq<Seq<char>> {
    seq![
        "default"@,
        "setup_required"@,
        "not_running"@,
        "restart_pending"@,
        "external_change"@,
        "unreadable"@,
        "doctor_healthy"@,
        "doctor_failed"@,
        "logs_empty"@,
        "integrations_states"@,
        "meetings_signed_out"@,
        "meetings_absent"@,
        "meetings_refused"@,
        "computer_states"@,
        "computer_wayland"@,
        "onboarding_welcome"@,
        "onboarding_starting"@,
        "onboarding_linger_denied"@,
        "onboarding_boot_failed"@,
        "onboarding_connect_ai"@,
        "onboarding_about_you"@,
        "onboarding_refused_personalization"@,
        "onboarding_no_restart"@,
        "onboarding_restart_needed"@,
        "onboarding_ready"@,
        "onboarding_skew"@,
        "secret_store_file"@,
    ]
}

/// Every scenario, by name.
pub fn scenario_names() -> (r: Vec<&'static str>)
    ensures
        r@.map_values(|s: &'static str| s@) == scenario_table(),
{
    let r = vec![
        "default",
        "setup_required",
        "not_running",
        "restart_pending",
        "external_change",
        "unreadable",
        "doctor_healthy",
        "doctor_failed",
        "logs_empty",
        "integrations_states",
        "meetings_signed_out",
        "meetings_absent",
        "meetings_refused",
        "computer_states",
        "computer_wayland",
        "onboarding_welcome",
        "onboarding_starting",
        "onboarding_linger_denied",
        "onboarding_boot_failed",
        "onboarding_connect_ai",
        "onboarding_about_you",
        "onboarding_refused_personalization",
        "onboarding_no_restart",
        "onboarding_restart_needed",
        "onboarding_ready",
        "onboarding_skew",
        "secret_store_file",
    ];
    assert(r@.map_values(|s: &'static str| s@) =~= scenario_table());
    r
}

/// Whether a scenario of this name exists.
pub fn is_scenario(name: &str) -> (r: bool)
    ensures
        r == scenario_table().contains(name@),
{
    let table = scenario_names();
    let mut i: usize = 0;
    while i < table.len()
        invariant
            i <= table@.len(),
            table@.map_values(|s: &'static str| s@) == scenario_table(),
            forall|k: int| 0 <= k < i ==> #[trigger] scenario_table()[k] != name@,
        decreases table@.len() - i,
    {
        assert(scenario_table()[i as int] == table@[i as int]@);
        if str_eq(table[i], name) {
            return true;
        }
        i = i + 1;
    }
    false
}

/// The scenarios that are a property of the socket rather than of a response:
/// nothing listens at all. One is Home's daemon-unavailable state and the other
/// is the fresh account the Setup assistant opens on.
pub open spec fn silent_table() -> Seq<Seq<char>> {
    seq!["not_running"@, "onboarding_welcome"@]
}

/// The scenarios nothing answers in.
pub fn silent_scenarios() -> (r: Vec<&'static str>)
    ensures
        r@.map_values(|s: &'static str| s@) == silent_table(),
{
    let r = vec!["not_running", "onboarding_welcome"];
    assert(r@.map_values(|s: &'static str| s@) =~= silent_table());
    r
}

/// Whether this scenario answers at all.
pub fn is_silent(scenario: &str) -> (r: bool)
    ensures
        r == silent_table().contains(scenario@),
{
    let a = str_eq(scenario, "not_running");
    let b = str_eq(scenario, "onboarding_welcome");
    proof {
        if a {
            assert(silent_table()[0] == scenario@);
        }
        if b {
            assert(silent_table()[1] == scenario@);
        }
        if silent_table().contains(scenario@) {
            let k = choose|k: int| 0 <= k < silent_table().len() && silent_table()[k] == scenario@;
            assert(k == 0 || k == 1);
        }
    }
    a || b
}

/// The method whose records are keyed by section as well.
pub const SECTIONED_METHOD: &'static str = "settings.get";

/// The prefix a section's key carries.
pub const SECTION_KEY_PREFIX: &'static str = "settings.get:";

/// A record's lookup key: the method, or the method and the section for
/// `settings.get`.
pub open spec fn key_of(method: Seq<char>, section: Option<Seq<char>>) -> Seq<char> {
    match section {
        Some(s) => if method == SECTIONED_METHOD@ {
            method + ":"@ + s
        } else {
            method
        },
        None => method,
    }
}

/// A record's lookup key.
pub fn lookup_key(method: &str, section: Option<&str>) -> (r: String)
    ensures
        r@ == key_of(
            method@,
            match section {
                Some(s) => Some(s@),
                None => None,
            },
        ),
{
    match section {
        Some(s) => {
            if str_eq(method, SECTIONED_METHOD) {
                concat3(method, ":", s)
            } else {
                owned(method)
            }
        },
        None => owned(method),
    }
}

/// The section a key answers for, where it is a section's key.
pub fn section_of_key(key: &str) -> (r: Option<String>)
    ensures
        r is Some <==> is_prefix(SECTION_KEY_PREFIX@, key@),
        r matches Some(s) ==> s@ == key@.subrange(SECTION_KEY_PREFIX@.len() as int, key@.len() as int),
{
    strip_prefix(key, SECTION_KEY_PREFIX)
}

/// What a request's protocol version meets before anything is looked up.
#[derive(Debug, Clone, Copy, PartialEq, Eq, Structural)]
pub enum VersionVerdict {
    /// Older than the window: the published `client_too_old` refusal.
    ClientTooOld,
    /// Newer than the window: the published `daemon_too_old` refusal.
    DaemonTooOld,
    /// Inside the window: the request is answered.
    Answer,
}

/// What a request's protocol version meets. The fixture peer enforces the
/// window for the same reason the daemon does: a client negotiating against it
/// has to meet the same two refusals it meets in the field.
pub fn version_verdict(version: u32) -> (v: VersionVerdict)
    ensures
        v == if version < window().min {
            VersionVerdict::ClientTooOld
        } else if version > window().max {
            VersionVerdict::DaemonTooOld
        } else {
            VersionVerdict::Answer
        },
{
    let range = supported_range();
    if version < range.min {
        VersionVerdict::ClientTooOld
    } else if version > range.max {
        VersionVerdict::DaemonTooOld
    } else {
        VersionVerdict::Answer
    }
}

/// One read of a method answered with a sequence of records: the record at the
/// cursor, holding on the last once the sequence is spent, and where the
/// cursor stands after the read.
pub fn sequence_step(at: usize, len: usize) -> (r: (Option<usize>, usize))
    ensures
        r.0 == if at < len {
            Some(at)
        } else if len > 0 {
            Some((len - 1) as usize)
        } else {
            None::<usize>
        },
        r.1 == if at + 1 < len { (at + 1) as usize } else { len },
{
    let answer = if at < len {
        Some(at)
    } else if len > 0 {
        Some(len - 1)
    } else {
        None
    };
    let next = if at < len && at + 1 < len { at + 1 } else { len };
    (answer, next)
}


/// How the fixture peer answers one request.
#[derive(Debug, Clone, Copy, PartialEq, Eq)]
pub enum AnswerPlan {
    /// The published envelope for this code, stamped with the request's id.
    Refuse(&'static str),
    /// The next record of the method's sequence.
    NextInSequence,
    /// The record stored under the request's lookup key.
    Stored,
}

/// How one request is answered: outside the version window it meets the
/// published refusal for its side; a method answered in sequence walks its
/// sequence; a stored record answers as itself; and anything else is refused
/// as a method the goldens do not publish, rather than invented.
pub fn answer_plan(version: u32, sequenced: bool, stored: bool) -> (r: AnswerPlan)
    ensures
        version < window().min ==> r == AnswerPlan::Refuse("client_too_old"),
        version > window().max ==> r == AnswerPlan::Refuse("daemon_too_old"),
        window().min <= version <= window().max ==> r == if sequenced {
            AnswerPlan::NextInSequence
        } else if stored {
            AnswerPlan::Stored
        } else {
            AnswerPlan::Refuse("method_not_found")
        },
{
    match version_verdict(version) {
        VersionVerdict::ClientTooOld => AnswerPlan::Refuse("client_too_old"),
        VersionVerdict::DaemonTooOld => AnswerPlan::Refuse("daemon_too_old"),
        VersionVerdict::Answer => {
            if sequenced {
                AnswerPlan::NextInSequence
            } else if stored {
                AnswerPlan::Stored
            } else {
                AnswerPlan::Refuse("method_not_found")
            }
        },
    }
}


/// What a record's `responses` member is.
#[derive(Debug, Clone, Copy, PartialEq, Eq, Structural)]
pub enum ResponsesMember {
    /// The record has no such member.
    Absent,
    /// A list: the records a method answers in order.
    List,
    /// Anything else.
    Other,
}

/// How one record of a scenario is laid over the goldens.
#[derive(Debug, Clone, Copy, PartialEq, Eq, Structural)]
pub enum RecordKind {
    /// Its `responses` are answered in order.
    Sequence,
    /// Its one `response` replaces the golden under its key.
    Single,
}

/// Why a record is refused: records are counted from one, so the record at
/// `index` is record `index + 1`.
pub open spec fn record_problem(index: nat, words: Seq<char>) -> Seq<char> {
    "record "@ + decimal(index + 1) + words
}

fn record_error(index: usize, words: &str) -> (e: String)
    requires
        index < usize::MAX,
    ensures
        e@ == record_problem(index as nat, words@),
{
    let mut e = owned("record ");
    push_str(&mut e, decimal_string((index + 1) as u64).as_str());
    push_str(&mut e, words);
    e
}

/// How one record reads: a record names its method; a list of responses is a
/// sequence; a `responses` that is not a list is refused; otherwise its one
/// `response` is what it carries, and a record with neither is refused.
pub fn record_kind(number: usize, has_method: bool, responses: ResponsesMember, has_response: bool) -> (r:
    Result<RecordKind, String>)
    requires
        number < usize::MAX,
    ensures
        !has_method ==> (r matches Err(e) && e@ == record_problem(number as nat, " carries no method"@)),
        has_method && responses == ResponsesMember::List ==> r == Ok::<RecordKind, String>(
            RecordKind::Sequence,
        ),
        has_method && responses == ResponsesMember::Other ==> (r matches Err(e) && e@
            == record_problem(number as nat, " carries a responses that is not a list"@)),
        has_method && responses == ResponsesMember::Absent && has_response ==> r == Ok::<
            RecordKind,
            String,
        >(RecordKind::Single),
        has_method && responses == ResponsesMember::Absent && !has_response ==> (r matches Err(e)
            && e@ == record_problem(number as nat, " carries no response"@)),
{
    if !has_method {
        return Err(record_error(number, " carries no method"));
    }
    match responses {
        ResponsesMember::List => Ok(RecordKind::Sequence),
        ResponsesMember::Other => Err(record_error(number, " carries a responses that is not a list")),
        ResponsesMember::Absent => {
            if has_response {
                Ok(RecordKind::Single)
            } else {
                Err(record_error(number, " carries no response"))
            }
        },
    }
}


// ---------------------------------------------------------------------------
// Reading a scenario's records
// ---------------------------------------------------------------------------

/// A body cut at each line feed: the text between them, in order, the last
/// piece running to the end of the body.
pub open spec fn line_pieces(s: Seq<char>) -> Seq<Seq<char>>
    decreases s.len(),
{
    if s.len() == 0 {
        seq![Seq::<char>::empty()]
    } else {
        let rest = line_pieces(s.drop_last());
        if s.last() == '\n' {
            rest.push(Seq::<char>::empty())
        } else {
            rest.update(rest.len() - 1, rest.last().push(s.last()))
        }
    }
}

proof fn line_pieces_nonempty(s: Seq<char>)
    ensures
        line_pieces(s).len() >= 1,
    decreases s.len(),
{
    if s.len() > 0 {
        line_pieces_nonempty(s.drop_last());
    }
}

/// A body's lines, cut at each line feed.
pub fn body_lines(body: &str) -> (r: Vec<String>)
    ensures
        views(r@) == line_pieces(body@),
{
    let v = chars_of(body);
    let mut done: Vec<String> = Vec::new();
    let mut cur: Vec<char> = Vec::new();
    let mut i: usize = 0;
    proof {
        assert(v@.take(0) =~= Seq::<char>::empty());
        assert(views(done@).push(cur@) =~= seq![Seq::<char>::empty()]);
    }
    while i < v.len()
        invariant
            i <= v@.len(),
            v@ == body@,
            views(done@).push(cur@) == line_pieces(v@.take(i as int)),
        decreases v@.len() - i,
    {
        proof {
            assert(v@.take(i + 1).drop_last() =~= v@.take(i as int));
            line_pieces_nonempty(v@.take(i as int));
        }
        if v[i] == '\n' {
            let line = string_of(cur.as_slice());
            let ghost before = done@;
            done.push(line);
            cur = Vec::new();
            proof {
                assert(views(done@) =~= views(before).push(line@));
                assert(views(done@).push(cur@) =~= views(before).push(line@).push(Seq::<char>::empty()));
            }
        } else {
            let ghost before = cur@;
            cur.push(v[i]);
            proof {
                assert(views(done@).push(cur@) =~= views(done@).push(before).update(
                    views(done@).len() as int,
                    before.push(v@[i as int]),
                ));
            }
        }
        i = i + 1;
    }
    let line = string_of(cur.as_slice());
    let ghost before = done@;
    done.push(line);
    proof {
        assert(v@.take(v@.len() as int) =~= v@);
        assert(views(done@) =~= views(before).push(line@));
    }
    done
}

/// What a record's `responses` member holds: nothing, a list of records as
/// compact JSON text, or something else.
pub enum ResponsesRead {
    Absent,
    List(Vec<String>),
    Other,
}

/// The members one record of a scenario or of the goldens is read by.
pub struct LineRecord {
    /// `method`, where it is text.
    pub method: Option<String>,
    /// `code`, where it is text.
    pub code: Option<String>,
    pub responses: ResponsesRead,
    /// `response`, as compact JSON text.
    pub response: Option<String>,
    /// `response.result.id`, where it is text.
    pub section: Option<String>,
}

/// What serde_json reads from one line of records, or the parser's words.
pub uninterp spec fn record_read(line: Seq<char>) -> Result<LineRecord, String>;

/// `serde_json::from_str` on one line, and the members the records are read
/// by. Objects and arrays come back as serde_json writes them compactly.
#[verifier::external_body]
fn read_record(line: &str) -> (r: Result<LineRecord, String>)
    ensures
        r == record_read(line@),
{
    let record: Value = match serde_json::from_str(line) {
        Ok(record) => record,
        Err(error) => return Err(error.to_string()),
    };
    let text = |v: &Value| v.as_str().map(str::to_string);
    let responses = match record.get("responses") {
        None => ResponsesRead::Absent,
        Some(Value::Array(items)) => ResponsesRead::List(items.iter().map(Value::to_string).collect()),
        Some(_) => ResponsesRead::Other,
    };
    let response = record.get("response");
    let section = text(&record["response"]["result"]["id"]);
    Ok(LineRecord { method: text(&record["method"]), code: text(&record["code"]), responses, response: response.map(Value::to_string), section })
}

/// Where a key stands in a keyed list, looking from the end, or -1 where it
/// is not listed.
pub open spec fn key_index<V>(m: Seq<(Seq<char>, V)>, key: Seq<char>) -> int
    decreases m.len(),
{
    if m.len() == 0 {
        -1
    } else if m.last().0 == key {
        m.len() - 1
    } else {
        key_index(m.drop_last(), key)
    }
}

/// A keyed list with one more entry, as a map takes it: a key already listed
/// takes the new value where it stands, and a new key goes at the end.
pub open spec fn put<V>(m: Seq<(Seq<char>, V)>, key: Seq<char>, value: V) -> Seq<(Seq<char>, V)> {
    let i = key_index(m, key);
    if i < 0 {
        m.push((key, value))
    } else {
        m.update(i, (key, value))
    }
}

proof fn key_index_bounded<V>(m: Seq<(Seq<char>, V)>, key: Seq<char>)
    ensures
        -1 <= key_index(m, key) < m.len(),
        key_index(m, key) >= 0 ==> m[key_index(m, key)].0 == key,
        key_index(m, key) < 0 ==> forall|k: int| 0 <= k < m.len() ==> (#[trigger] m[k]).0 != key,
    decreases m.len(),
{
    if m.len() > 0 {
        key_index_bounded(m.drop_last(), key);
        if m.last().0 != key {
            assert forall|k: int| 0 <= k < m.len() && key_index(m, key) < 0 implies (#[trigger] m[k]).0
                != key by {
                if k < m.len() - 1 {
                    assert(m.drop_last()[k] == m[k]);
                }
            }
        }
    }
}

/// Whether no key is listed twice.
pub open spec fn distinct_keys<V>(m: Seq<(Seq<char>, V)>) -> bool {
    forall|a: int, b: int| 0 <= a < b < m.len() ==> #[trigger] m[a].0 != #[trigger] m[b].0
}

/// A record laid over a keyed list stands over any earlier one under its
/// key: every key stays listed once, the laid key reads the laid record, and
/// every other key keeps its own.
pub proof fn a_later_record_stands_over_an_earlier_one<V>(m: Seq<(Seq<char>, V)>, key: Seq<char>, value: V)
    requires
        distinct_keys(m),
    ensures
        distinct_keys(put(m, key, value)),
        exists|i: int| 0 <= i < put(m, key, value).len() && #[trigger] put(m, key, value)[i] == (key, value),
        forall|i: int|
            0 <= i < m.len() && m[i].0 != key ==> put(m, key, value).contains(#[trigger] m[i]),
{
    key_index_bounded(m, key);
    let r = put(m, key, value);
    let i = key_index(m, key);
    if i < 0 {
        assert(r[m.len() as int] == (key, value));
        assert forall|k: int| 0 <= k < m.len() && m[k].0 != key implies r.contains(#[trigger] m[k]) by {
            assert(r[k] == m[k]);
        }
    } else {
        assert(r[i] == (key, value));
        assert forall|k: int| 0 <= k < m.len() && m[k].0 != key implies r.contains(#[trigger] m[k]) by {
            assert(r[k] == m[k]);
        }
    }
}

/// Lay one record over a keyed list of records, as a map insert does.
fn put_text(m: &mut Vec<(String, String)>, key: String, value: String)
    ensures
        text_pairs(final(m)@) == put(text_pairs(old(m)@), key@, value@),
{
    let ghost all = text_pairs(m@);
    let mut j: usize = m.len();
    proof {
        assert(all.take(j as int) =~= all);
    }
    while j > 0
        invariant
            j <= m@.len(),
            all == text_pairs(m@),
            m@ == old(m)@,
            key_index(all, key@) == key_index(all.take(j as int), key@),
        decreases j,
    {
        proof {
            assert(all.take(j as int).drop_last() =~= all.take(j - 1));
        }
        if str_eq(m[j - 1].0.as_str(), key.as_str()) {
            m.set(j - 1, (key, value));
            proof {
                assert(text_pairs(m@) =~= all.update(j - 1, (key@, value@)));
            }
            return;
        }
        j = j - 1;
    }
    proof {
        assert(all.take(0) =~= Seq::<(Seq<char>, Seq<char>)>::empty());
    }
    let ghost entry = (key, value);
    m.push((key, value));
    proof {
        assert(text_pairs(m@) =~= all.push((entry.0@, entry.1@)));
    }
}

/// Lay one sequence over a keyed list of sequences, as a map insert does.
fn put_records(m: &mut Vec<(String, Vec<String>)>, key: String, value: Vec<String>)
    ensures
        sequence_views(final(m)@) == put(sequence_views(old(m)@), key@, views(value@)),
{
    let ghost all = sequence_views(m@);
    let mut j: usize = m.len();
    proof {
        assert(all.take(j as int) =~= all);
    }
    while j > 0
        invariant
            j <= m@.len(),
            all == sequence_views(m@),
            m@ == old(m)@,
            key_index(all, key@) == key_index(all.take(j as int), key@),
        decreases j,
    {
        proof {
            assert(all.take(j as int).drop_last() =~= all.take(j - 1));
        }
        if str_eq(m[j - 1].0.as_str(), key.as_str()) {
            let ghost entry = (key, value);
            m.set(j - 1, (key, value));
            proof {
                assert(sequence_views(m@) =~= all.update(j - 1, (entry.0@, views(entry.1@))));
            }
            return;
        }
        j = j - 1;
    }
    proof {
        assert(all.take(0) =~= Seq::<(Seq<char>, Seq<Seq<char>>)>::empty());
    }
    let ghost entry = (key, value);
    m.push((key, value));
    proof {
        assert(sequence_views(m@) =~= all.push((entry.0@, views(entry.1@))));
    }
}

/// What one record of a scenario lays over the goldens.
pub enum ScenarioRecord {
    /// The golden under this lookup key is replaced by this record.
    Replace { key: String, text: String },
    /// The method is answered with these records, in order.
    Sequence { method: String, records: Vec<String> },
}

/// One record of a scenario, as views.
pub enum ScenarioRecordView {
    Replace(Seq<char>, Seq<char>),
    Sequence(Seq<char>, Seq<Seq<char>>),
}

pub open spec fn scenario_record_view(r: ScenarioRecord) -> ScenarioRecordView {
    match r {
        ScenarioRecord::Replace { key, text } => ScenarioRecordView::Replace(key@, text@),
        ScenarioRecord::Sequence { method, records } => ScenarioRecordView::Sequence(
            method@,
            views(records@),
        ),
    }
}

/// What one line of a scenario says, given what was read from it: a record
/// names its method; a list of responses is a sequence; a `responses` that is
/// not a list is refused; otherwise its one `response` replaces the golden
/// under its key, and a record with neither is refused.
pub open spec fn scenario_record_of(index: nat, read: Result<LineRecord, String>) -> Result<
    ScenarioRecordView,
    Seq<char>,
> {
    match read {
        Err(words) => Err(record_problem(index, " does not parse: "@ + words@)),
        Ok(rec) => match rec.method {
            None => Err(record_problem(index, " carries no method"@)),
            Some(m) => match rec.responses {
                ResponsesRead::List(items) => Ok(ScenarioRecordView::Sequence(m@, views(items@))),
                ResponsesRead::Other => Err(
                    record_problem(index, " carries a responses that is not a list"@),
                ),
                ResponsesRead::Absent => match rec.response {
                    Some(response) => Ok(
                        ScenarioRecordView::Replace(key_of(m@, opt_view(rec.section)), response@),
                    ),
                    None => Err(record_problem(index, " carries no response"@)),
                },
            },
        },
    }
}

/// One line of a scenario, given what was read from it and counted from zero.
pub fn scenario_record(index: usize, read: Result<LineRecord, String>) -> (r: Result<ScenarioRecord, String>)
    requires
        index < usize::MAX,
    ensures
        match (r, scenario_record_of(index as nat, read)) {
            (Ok(x), Ok(y)) => scenario_record_view(x) == y,
            (Err(e), Err(y)) => e@ == y,
            _ => false,
        },
{
    let rec = match read {
        Ok(rec) => rec,
        Err(words) => {
            let w = concat(" does not parse: ", words.as_str());
            return Err(record_error(index, w.as_str()));
        },
    };
    let LineRecord { method, code: _, responses, response, section } = rec;
    let member = match &responses {
        ResponsesRead::Absent => ResponsesMember::Absent,
        ResponsesRead::List(_) => ResponsesMember::List,
        ResponsesRead::Other => ResponsesMember::Other,
    };
    match record_kind(index, method.is_some(), member, response.is_some()) {
        Err(e) => Err(e),
        Ok(RecordKind::Sequence) => {
            let method = match method {
                Some(m) => m,
                None => String::new(),
            };
            let records = match responses {
                ResponsesRead::List(items) => items,
                _ => Vec::new(),
            };
            Ok(ScenarioRecord::Sequence { method, records })
        },
        Ok(RecordKind::Single) => {
            let m = match method {
                Some(m) => m,
                None => String::new(),
            };
            let key = match &section {
                Some(s) => lookup_key(m.as_str(), Some(s.as_str())),
                None => lookup_key(m.as_str(), None),
            };
            let text = match response {
                Some(text) => text,
                None => String::new(),
            };
            Ok(ScenarioRecord::Replace { key, text })
        },
    }
}

/// The records read so far: the replacements, by lookup key, and the
/// sequences, by method, each in the order the body holds them.
pub open spec fn scenario_step(
    sofar: (Seq<(Seq<char>, Seq<char>)>, Seq<(Seq<char>, Seq<Seq<char>>)>),
    index: nat,
    line: Seq<char>,
) -> Result<(Seq<(Seq<char>, Seq<char>)>, Seq<(Seq<char>, Seq<Seq<char>>)>), Seq<char>> {
    if trimmed(line).len() == 0 {
        Ok(sofar)
    } else {
        match scenario_record_of(index, record_read(line)) {
            Err(e) => Err(e),
            Ok(ScenarioRecordView::Replace(key, text)) => Ok((put(sofar.0, key, text), sofar.1)),
            Ok(ScenarioRecordView::Sequence(method, records)) => Ok(
                (sofar.0, put(sofar.1, method, records)),
            ),
        }
    }
}

/// A scenario's records, line by line: blank lines are skipped, and the
/// first line that is refused refuses the body.
pub open spec fn scenario_records(lines: Seq<Seq<char>>) -> Result<
    (Seq<(Seq<char>, Seq<char>)>, Seq<(Seq<char>, Seq<Seq<char>>)>),
    Seq<char>,
>
    decreases lines.len(),
{
    if lines.len() == 0 {
        Ok((Seq::empty(), Seq::empty()))
    } else {
        match scenario_records(lines.drop_last()) {
            Err(e) => Err(e),
            Ok(sofar) => scenario_step(sofar, (lines.len() - 1) as nat, lines.last()),
        }
    }
}

proof fn scenario_refusal_sticks(lines: Seq<Seq<char>>, k: int)
    requires
        0 <= k <= lines.len(),
        scenario_records(lines.take(k)) is Err,
    ensures
        scenario_records(lines) == scenario_records(lines.take(k)),
    decreases lines.len() - k,
{
    if k < lines.len() {
        assert(lines.take(k + 1).drop_last() =~= lines.take(k));
        scenario_refusal_sticks(lines, k + 1);
    } else {
        assert(lines.take(k) =~= lines);
    }
}

/// Pairs of strings, as views.
pub open spec fn text_pairs(v: Seq<(String, String)>) -> Seq<(Seq<char>, Seq<char>)> {
    v.map_values(|p: (String, String)| (p.0@, p.1@))
}

/// Methods with their lists of records, as views.
pub open spec fn sequence_views(v: Seq<(String, Vec<String>)>) -> Seq<(Seq<char>, Seq<Seq<char>>)> {
    v.map_values(|p: (String, Vec<String>)| (p.0@, views(p.1@)))
}

/// Whether a line holds nothing but white space.
fn is_blank(line: &str) -> (r: bool)
    ensures
        r == (trimmed(line@).len() == 0),
{
    let bare = trim(line);
    chars_of(bare.as_str()).len() == 0
}

/// A scenario's records: the ones that replace a golden, under their lookup
/// keys, and the ones that are answered in order, under their methods, each
/// as compact JSON text. A key or method is listed once, where it first
/// appears, with the last record the body holds for it.
pub fn parse_with_sequences(body: &str) -> (r: Result<
    (Vec<(String, String)>, Vec<(String, Vec<String>)>),
    String,
>)
    ensures
        match (r, scenario_records(line_pieces(body@))) {
            (Ok(records), Ok(expected)) => text_pairs(records.0@) == expected.0 && sequence_views(
                records.1@,
            ) == expected.1,
            (Err(e), Err(expected)) => e@ == expected,
            _ => false,
        },
{
    let lines = body_lines(body);
    let ghost all = line_pieces(body@);
    let mut replaced: Vec<(String, String)> = Vec::new();
    let mut sequences: Vec<(String, Vec<String>)> = Vec::new();
    let mut i: usize = 0;
    proof {
        assert(all.take(0) =~= Seq::<Seq<char>>::empty());
        assert(text_pairs(replaced@) =~= Seq::<(Seq<char>, Seq<char>)>::empty());
        assert(sequence_views(sequences@) =~= Seq::<(Seq<char>, Seq<Seq<char>>)>::empty());
    }
    while i < lines.len()
        invariant
            i <= lines@.len(),
            views(lines@) == all,
            all == line_pieces(body@),
            scenario_records(all.take(i as int)) == Ok::<
                (Seq<(Seq<char>, Seq<char>)>, Seq<(Seq<char>, Seq<Seq<char>>)>),
                Seq<char>,
            >((text_pairs(replaced@), sequence_views(sequences@))),
        decreases lines@.len() - i,
    {
        proof {
            assert(all.take(i + 1).drop_last() =~= all.take(i as int));
            assert(all.take(i + 1).last() == lines@[i as int]@);
        }
        let line = lines[i].as_str();
        if !is_blank(line) {
            match scenario_record(i, read_record(line)) {
                Err(e) => {
                    proof {
                        scenario_refusal_sticks(all, i + 1);
                    }
                    return Err(e);
                },
                Ok(ScenarioRecord::Replace { key, text }) => {
                    put_text(&mut replaced, key, text);
                },
                Ok(ScenarioRecord::Sequence { method, records }) => {
                    put_records(&mut sequences, method, records);
                },
            }
        }
        i = i + 1;
    }
    proof {
        assert(all.take(lines@.len() as int) =~= all);
    }
    Ok((replaced, sequences))
}

/// What one line of the goldens says, given what was read from it: a record
/// names its method and carries its one `response`, under its lookup key.
pub open spec fn golden_record_of(index: nat, read: Result<LineRecord, String>) -> Result<
    (Seq<char>, Seq<char>),
    Seq<char>,
> {
    match read {
        Err(words) => Err(record_problem(index, " does not parse: "@ + words@)),
        Ok(rec) => match rec.method {
            None => Err(record_problem(index, " carries no method"@)),
            Some(m) => match rec.response {
                Some(response) => Ok((key_of(m@, opt_view(rec.section)), response@)),
                None => Err(record_problem(index, " carries no response"@)),
            },
        },
    }
}

/// One line of the goldens, given what was read from it and counted from
/// zero.
pub fn golden_record(index: usize, read: Result<LineRecord, String>) -> (r: Result<(String, String), String>)
    requires
        index < usize::MAX,
    ensures
        match (r, golden_record_of(index as nat, read)) {
            (Ok(x), Ok(y)) => (x.0@, x.1@) == y,
            (Err(e), Err(y)) => e@ == y,
            _ => false,
        },
{
    let LineRecord { method, code: _, responses: _, response, section } = match read {
        Ok(rec) => rec,
        Err(words) => {
            let w = concat(" does not parse: ", words.as_str());
            return Err(record_error(index, w.as_str()));
        },
    };
    let m = match method {
        Some(m) => m,
        None => {
            return Err(record_error(index, " carries no method"));
        },
    };
    let text = match response {
        Some(text) => text,
        None => {
            return Err(record_error(index, " carries no response"));
        },
    };
    let key = match &section {
        Some(s) => lookup_key(m.as_str(), Some(s.as_str())),
        None => lookup_key(m.as_str(), None),
    };
    Ok((key, text))
}

/// The goldens' records read so far, under their lookup keys, in the order
/// the body holds them.
pub open spec fn golden_step(sofar: Seq<(Seq<char>, Seq<char>)>, index: nat, line: Seq<char>) -> Result<
    Seq<(Seq<char>, Seq<char>)>,
    Seq<char>,
> {
    if trimmed(line).len() == 0 {
        Ok(sofar)
    } else {
        match golden_record_of(index, record_read(line)) {
            Err(e) => Err(e),
            Ok(record) => Ok(put(sofar, record.0, record.1)),
        }
    }
}

/// The goldens' records, line by line: blank lines are skipped, and the first
/// line that is refused refuses the body.
pub open spec fn golden_records(lines: Seq<Seq<char>>) -> Result<Seq<(Seq<char>, Seq<char>)>, Seq<char>>
    decreases lines.len(),
{
    if lines.len() == 0 {
        Ok(Seq::empty())
    } else {
        match golden_records(lines.drop_last()) {
            Err(e) => Err(e),
            Ok(sofar) => golden_step(sofar, (lines.len() - 1) as nat, lines.last()),
        }
    }
}

proof fn golden_refusal_sticks(lines: Seq<Seq<char>>, k: int)
    requires
        0 <= k <= lines.len(),
        golden_records(lines.take(k)) is Err,
    ensures
        golden_records(lines) == golden_records(lines.take(k)),
    decreases lines.len() - k,
{
    if k < lines.len() {
        assert(lines.take(k + 1).drop_last() =~= lines.take(k));
        golden_refusal_sticks(lines, k + 1);
    } else {
        assert(lines.take(k) =~= lines);
    }
}

/// The published goldens: each record's one `response` under its lookup
/// key, as compact JSON text. A key is listed once, where it first appears,
/// with the last record the body holds for it.
pub fn parse_goldens(body: &str) -> (r: Result<Vec<(String, String)>, String>)
    ensures
        match (r, golden_records(line_pieces(body@))) {
            (Ok(records), Ok(expected)) => text_pairs(records@) == expected,
            (Err(e), Err(expected)) => e@ == expected,
            _ => false,
        },
{
    let lines = body_lines(body);
    let ghost all = line_pieces(body@);
    let mut records: Vec<(String, String)> = Vec::new();
    let mut i: usize = 0;
    proof {
        assert(all.take(0) =~= Seq::<Seq<char>>::empty());
        assert(text_pairs(records@) =~= Seq::<(Seq<char>, Seq<char>)>::empty());
    }
    while i < lines.len()
        invariant
            i <= lines@.len(),
            views(lines@) == all,
            all == line_pieces(body@),
            golden_records(all.take(i as int)) == Ok::<Seq<(Seq<char>, Seq<char>)>, Seq<char>>(
                text_pairs(records@),
            ),
        decreases lines@.len() - i,
    {
        proof {
            assert(all.take(i + 1).drop_last() =~= all.take(i as int));
            assert(all.take(i + 1).last() == lines@[i as int]@);
        }
        let line = lines[i].as_str();
        if !is_blank(line) {
            match golden_record(i, read_record(line)) {
                Err(e) => {
                    proof {
                        golden_refusal_sticks(all, i + 1);
                    }
                    return Err(e);
                },
                Ok((key, text)) => {
                    put_text(&mut records, key, text);
                },
            }
        }
        i = i + 1;
    }
    proof {
        assert(all.take(lines@.len() as int) =~= all);
    }
    Ok(records)
}

/// Why an error record is refused, counted from one as the records are.
pub open spec fn error_record_problem(index: nat, words: Seq<char>) -> Seq<char> {
    "error record "@ + decimal(index + 1) + words
}

fn error_record_error(index: usize, words: &str) -> (e: String)
    requires
        index < usize::MAX,
    ensures
        e@ == error_record_problem(index as nat, words@),
{
    let mut e = owned("error record ");
    push_str(&mut e, decimal_string((index + 1) as u64).as_str());
    push_str(&mut e, words);
    e
}

/// What one line of the published refusals says, given what was read from
/// it: a record names its code and carries its one `response`.
pub open spec fn refusal_record_of(index: nat, read: Result<LineRecord, String>) -> Result<
    (Seq<char>, Seq<char>),
    Seq<char>,
> {
    match read {
        Err(words) => Err(error_record_problem(index, " does not parse: "@ + words@)),
        Ok(rec) => match rec.code {
            None => Err(error_record_problem(index, " carries no code"@)),
            Some(c) => match rec.response {
                Some(response) => Ok((c@, response@)),
                None => Err(error_record_problem(index, " carries no response"@)),
            },
        },
    }
}

/// One line of the published refusals, given what was read from it and
/// counted from zero.
pub fn refusal_record(index: usize, read: Result<LineRecord, String>) -> (r: Result<(String, String), String>)
    requires
        index < usize::MAX,
    ensures
        match (r, refusal_record_of(index as nat, read)) {
            (Ok(x), Ok(y)) => (x.0@, x.1@) == y,
            (Err(e), Err(y)) => e@ == y,
            _ => false,
        },
{
    let LineRecord { method: _, code, responses: _, response, section: _ } = match read {
        Ok(rec) => rec,
        Err(words) => {
            let w = concat(" does not parse: ", words.as_str());
            return Err(error_record_error(index, w.as_str()));
        },
    };
    let c = match code {
        Some(c) => c,
        None => {
            return Err(error_record_error(index, " carries no code"));
        },
    };
    match response {
        Some(text) => Ok((c, text)),
        None => Err(error_record_error(index, " carries no response")),
    }
}

/// Whether a code already has its envelope.
pub open spec fn has_code(sofar: Seq<(Seq<char>, Seq<char>)>, code: Seq<char>) -> bool {
    exists|i: int| 0 <= i < sofar.len() && (#[trigger] sofar[i]).0 == code
}

/// The published refusals read so far: the first envelope of each code, in
/// the order the body holds them.
pub open spec fn refusal_step(sofar: Seq<(Seq<char>, Seq<char>)>, index: nat, line: Seq<char>) -> Result<
    Seq<(Seq<char>, Seq<char>)>,
    Seq<char>,
> {
    if trimmed(line).len() == 0 {
        Ok(sofar)
    } else {
        match refusal_record_of(index, record_read(line)) {
            Err(e) => Err(e),
            Ok(record) => if has_code(sofar, record.0) {
                Ok(sofar)
            } else {
                Ok(sofar.push(record))
            },
        }
    }
}

/// The published refusals, line by line: blank lines are skipped, the first
/// record of a code is the one that answers for it, and the first line that
/// is refused refuses the body.
pub open spec fn refusal_records(lines: Seq<Seq<char>>) -> Result<Seq<(Seq<char>, Seq<char>)>, Seq<char>>
    decreases lines.len(),
{
    if lines.len() == 0 {
        Ok(Seq::empty())
    } else {
        match refusal_records(lines.drop_last()) {
            Err(e) => Err(e),
            Ok(sofar) => refusal_step(sofar, (lines.len() - 1) as nat, lines.last()),
        }
    }
}

proof fn refusal_refusal_sticks(lines: Seq<Seq<char>>, k: int)
    requires
        0 <= k <= lines.len(),
        refusal_records(lines.take(k)) is Err,
    ensures
        refusal_records(lines) == refusal_records(lines.take(k)),
    decreases lines.len() - k,
{
    if k < lines.len() {
        assert(lines.take(k + 1).drop_last() =~= lines.take(k));
        refusal_refusal_sticks(lines, k + 1);
    } else {
        assert(lines.take(k) =~= lines);
    }
}

fn code_present(records: &Vec<(String, String)>, code: &str) -> (r: bool)
    ensures
        r == has_code(text_pairs(records@), code@),
{
    let mut i: usize = 0;
    while i < records.len()
        invariant
            i <= records@.len(),
            forall|k: int| 0 <= k < i ==> (#[trigger] records@[k]).0@ != code@,
        decreases records@.len() - i,
    {
        if str_eq(records[i].0.as_str(), code) {
            proof {
                assert(text_pairs(records@)[i as int].0 == code@);
            }
            return true;
        }
        i = i + 1;
    }
    proof {
        assert forall|k: int| 0 <= k < text_pairs(records@).len() implies (#[trigger] text_pairs(
            records@,
        )[k]).0 != code@ by {
            assert(records@[k].0@ != code@);
        }
    }
    false
}

/// The published error envelopes, each code with the first envelope the body
/// holds for it, in the order the body holds them, as compact JSON text.
pub fn parse_refusals(body: &str) -> (r: Result<Vec<(String, String)>, String>)
    ensures
        match (r, refusal_records(line_pieces(body@))) {
            (Ok(records), Ok(expected)) => text_pairs(records@) == expected,
            (Err(e), Err(expected)) => e@ == expected,
            _ => false,
        },
{
    let lines = body_lines(body);
    let ghost all = line_pieces(body@);
    let mut records: Vec<(String, String)> = Vec::new();
    let mut i: usize = 0;
    proof {
        assert(all.take(0) =~= Seq::<Seq<char>>::empty());
        assert(text_pairs(records@) =~= Seq::<(Seq<char>, Seq<char>)>::empty());
    }
    while i < lines.len()
        invariant
            i <= lines@.len(),
            views(lines@) == all,
            all == line_pieces(body@),
            refusal_records(all.take(i as int)) == Ok::<Seq<(Seq<char>, Seq<char>)>, Seq<char>>(
                text_pairs(records@),
            ),
        decreases lines@.len() - i,
    {
        proof {
            assert(all.take(i + 1).drop_last() =~= all.take(i as int));
            assert(all.take(i + 1).last() == lines@[i as int]@);
        }
        let line = lines[i].as_str();
        if !is_blank(line) {
            match refusal_record(i, read_record(line)) {
                Err(e) => {
                    proof {
                        refusal_refusal_sticks(all, i + 1);
                    }
                    return Err(e);
                },
                Ok((code, text)) => {
                    if !code_present(&records, code.as_str()) {
                        let ghost before = records@;
                        let ghost entry = (code, text);
                        records.push((code, text));
                        proof {
                            assert(text_pairs(records@) =~= text_pairs(before).push(
                                (entry.0@, entry.1@),
                            ));
                        }
                    }
                },
            }
        }
        i = i + 1;
    }
    proof {
        assert(all.take(lines@.len() as int) =~= all);
    }
    Ok(records)
}

/// One keyed list laid over another, entry by entry, as a map is extended:
/// a key in both takes the later value.
pub open spec fn laid_over(
    base: Seq<(Seq<char>, Seq<char>)>,
    over: Seq<(Seq<char>, Seq<char>)>,
) -> Seq<(Seq<char>, Seq<char>)>
    decreases over.len(),
{
    if over.len() == 0 {
        base
    } else {
        put(laid_over(base, over.drop_last()), over.last().0, over.last().1)
    }
}

/// A scenario's replacements laid over the goldens.
pub fn lay_over(base: Vec<(String, String)>, over: &Vec<(String, String)>) -> (r: Vec<(String, String)>)
    ensures
        text_pairs(r@) == laid_over(text_pairs(base@), text_pairs(over@)),
{
    let mut r = base;
    let ghost start = text_pairs(r@);
    let mut i: usize = 0;
    proof {
        assert(text_pairs(over@).take(0) =~= Seq::<(Seq<char>, Seq<char>)>::empty());
    }
    while i < over.len()
        invariant
            i <= over@.len(),
            text_pairs(r@) == laid_over(start, text_pairs(over@).take(i as int)),
        decreases over@.len() - i,
    {
        proof {
            assert(text_pairs(over@).take(i + 1).drop_last() =~= text_pairs(over@).take(i as int));
        }
        let key = over[i].0.clone();
        let value = over[i].1.clone();
        put_text(&mut r, key, value);
        i = i + 1;
    }
    proof {
        assert(text_pairs(over@).take(over@.len() as int) =~= text_pairs(over@));
    }
    r
}

/// What the fixture peer answers from, read: the goldens with the scenario's
/// replacements laid over them, the published refusals, and the scenario's
/// sequences, each as compact JSON text.
pub struct GoldensRead {
    pub responses: Vec<(String, String)>,
    pub refusals: Vec<(String, String)>,
    pub sequences: Vec<(String, Vec<String>)>,
}

/// The goldens, one scenario's records and the published refusals, read in
/// that order: the first body that is refused refuses the whole.
pub fn read_goldens(success: &str, overrides: &str, errors: &str) -> (r: Result<GoldensRead, String>)
    ensures
        match (
            golden_records(line_pieces(success@)),
            scenario_records(line_pieces(overrides@)),
            refusal_records(line_pieces(errors@)),
        ) {
            (Err(e), _, _) => r matches Err(x) && x@ == e,
            (Ok(_), Err(e), _) => r matches Err(x) && x@ == e,
            (Ok(_), Ok(_), Err(e)) => r matches Err(x) && x@ == e,
            (Ok(goldens), Ok(scenario), Ok(refusals)) => r matches Ok(x) && text_pairs(x.responses@)
                == laid_over(goldens, scenario.0) && sequence_views(x.sequences@) == scenario.1
                && text_pairs(x.refusals@) == refusals,
        },
{
    let goldens = match parse_goldens(success) {
        Ok(g) => g,
        Err(e) => {
            return Err(e);
        },
    };
    let (replaced, sequences) = match parse_with_sequences(overrides) {
        Ok(s) => s,
        Err(e) => {
            return Err(e);
        },
    };
    let refusals = match parse_refusals(errors) {
        Ok(f) => f,
        Err(e) => {
            return Err(e);
        },
    };
    let responses = lay_over(goldens, &replaced);
    Ok(GoldensRead { responses, refusals, sequences })
}

} // verus!
