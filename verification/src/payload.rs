//! The frames of `kannaka swarm tail`: what a bus message says to the Bus, the
//! Constellation and the Dreams tab.

use vstd::prelude::*;
use crate::agent::{field_truth, field_unsigned};
use crate::json::{
    as_fixed, as_number, as_signed, as_text, copy_number, json_read, json_written, member,
    or, parse_json, Json, Tree,
};
use crate::text::{
    after, cat2, cut, join, joined, opt, same, starts, starts_with, strip_prefix, texts,
    trim, trimmed, truncate,
};

verus! {

/// One row of the Bus tab.
pub struct BusLine {
    pub ts_ms: i64,
    pub subject: String,
    pub summary: String,
}

/// What a [`BusLine`] says.
pub ghost struct BusLineModel {
    pub ts_ms: i64,
    pub subject: Seq<char>,
    pub summary: Seq<char>,
}

impl View for BusLine {
    type V = BusLineModel;

    open spec fn view(&self) -> BusLineModel {
        BusLineModel { ts_ms: self.ts_ms, subject: self.subject@, summary: self.summary@ }
    }
}

/// One report of a finished dream. The two consciousness figures are the numbers
/// of the report, absent where it gave none.
pub struct DreamEvent {
    pub ts_ms: i64,
    pub agent_id: String,
    pub cycles: u64,
    pub strengthened: u64,
    pub pruned: u64,
    pub new_connections: u64,
    pub hallucinations: u64,
    pub consciousness_before: Option<serde_json::Number>,
    pub consciousness_after: Option<serde_json::Number>,
    pub emerged: bool,
}

/// What a [`DreamEvent`] says.
pub ghost struct DreamModel {
    pub ts_ms: i64,
    pub agent_id: Seq<char>,
    pub cycles: u64,
    pub strengthened: u64,
    pub pruned: u64,
    pub new_connections: u64,
    pub hallucinations: u64,
    pub consciousness_before: Option<serde_json::Number>,
    pub consciousness_after: Option<serde_json::Number>,
    pub emerged: bool,
}

impl View for DreamEvent {
    type V = DreamModel;

    open spec fn view(&self) -> DreamModel {
        DreamModel {
            ts_ms: self.ts_ms,
            agent_id: self.agent_id@,
            cycles: self.cycles,
            strengthened: self.strengthened,
            pruned: self.pruned,
            new_connections: self.new_connections,
            hallucinations: self.hallucinations,
            consciousness_before: self.consciousness_before,
            consciousness_after: self.consciousness_after,
            emerged: self.emerged,
        }
    }
}

/// The latest heartbeat of one agent. The figures are the numbers of the
/// heartbeat, absent where it gave none; `last_seen` is the time at which it came
/// in, in nanoseconds of a monotonic clock.
pub struct AgentSnapshot {
    pub agent_id: String,
    pub theta: Option<serde_json::Number>,
    pub phi: Option<serde_json::Number>,
    pub coherence: Option<serde_json::Number>,
    pub order_parameter: Option<serde_json::Number>,
    pub handedness: String,
    pub memory_count: u64,
    pub last_seen: u64,
}

/// What an [`AgentSnapshot`] says.
pub ghost struct SnapshotModel {
    pub agent_id: Seq<char>,
    pub theta: Option<serde_json::Number>,
    pub phi: Option<serde_json::Number>,
    pub coherence: Option<serde_json::Number>,
    pub order_parameter: Option<serde_json::Number>,
    pub handedness: Seq<char>,
    pub memory_count: u64,
    pub last_seen: u64,
}

impl View for AgentSnapshot {
    type V = SnapshotModel;

    open spec fn view(&self) -> SnapshotModel {
        SnapshotModel {
            agent_id: self.agent_id@,
            theta: self.theta,
            phi: self.phi,
            coherence: self.coherence,
            order_parameter: self.order_parameter,
            handedness: self.handedness@,
            memory_count: self.memory_count,
            last_seen: self.last_seen,
        }
    }
}

/// The dream report that a payload holds; none where it is no object.
pub open spec fn dream_in(ts_ms: i64, t: Tree) -> Option<DreamModel> {
    if t is Object {
        Some(
            DreamModel {
                ts_ms,
                agent_id: or(as_text(member(t, "agent_id"@)), "?"@),
                cycles: field_unsigned(t, "cycles"@),
                strengthened: field_unsigned(t, "memories_strengthened"@),
                pruned: field_unsigned(t, "memories_pruned"@),
                new_connections: field_unsigned(t, "new_connections"@),
                hallucinations: field_unsigned(t, "hallucinations_created"@),
                consciousness_before: as_number(member(t, "consciousness_before"@)),
                consciousness_after: as_number(member(t, "consciousness_after"@)),
                emerged: field_truth(t, "emerged"@),
            },
        )
    } else {
        None
    }
}

/// What an optional dream report says.
pub open spec fn dream_model(d: Option<DreamEvent>) -> Option<DreamModel> {
    match d {
        Some(d) => Some(d@),
        None => None,
    }
}

/// Reads the payload of a `KANNAKA.dreams` message ([`dream_in`]).
pub fn dream_event_from_payload(ts_ms: i64, payload: &Json) -> (r: Option<DreamEvent>)
    ensures
        dream_model(r) == dream_in(ts_ms, payload.tree()),
{
    match payload {
        Json::Object(_) => {},
        _ => {
            return None;
        },
    }
    Some(
        DreamEvent {
            ts_ms,
            agent_id: payload.text_or("agent_id", "?"),
            cycles: payload.unsigned("cycles"),
            strengthened: payload.unsigned("memories_strengthened"),
            pruned: payload.unsigned("memories_pruned"),
            new_connections: payload.unsigned("new_connections"),
            hallucinations: payload.unsigned("hallucinations_created"),
            consciousness_before: payload.number("consciousness_before"),
            consciousness_after: payload.number("consciousness_after"),
            emerged: payload.truth("emerged"),
        },
    )
}

/// The agent that a phase message is about: the one that the payload names, else
/// the one in the subject.
pub open spec fn phase_agent(subject: Seq<char>, t: Tree) -> Option<Seq<char>> {
    match as_text(member(t, "agent_id"@)) {
        Some(id) => Some(id),
        None => after(subject, "QUEEN.phase."@),
    }
}

/// The angle of an agent: its `theta`, or its `phase` where it has no `theta`.
pub open spec fn phase_angle(t: Tree) -> Option<serde_json::Number> {
    match member(t, "theta"@) {
        Some(x) => as_number(Some(x)),
        None => as_number(member(t, "phase"@)),
    }
}

/// The heartbeat that a phase message holds; none where the payload is no object
/// or nothing names the agent.
pub open spec fn snapshot_in(subject: Seq<char>, t: Tree, now: u64) -> Option<SnapshotModel> {
    match phase_agent(subject, t) {
        Some(agent_id) if t is Object => Some(
            SnapshotModel {
                agent_id,
                theta: phase_angle(t),
                phi: as_number(member(t, "phi"@)),
                coherence: as_number(member(t, "coherence"@)),
                order_parameter: as_number(member(t, "order_parameter"@)),
                handedness: or(as_text(member(t, "handedness"@)), "achiral"@),
                memory_count: field_unsigned(t, "memory_count"@),
                last_seen: now,
            },
        ),
        _ => None,
    }
}

/// What an optional heartbeat says.
pub open spec fn snapshot_model(s: Option<AgentSnapshot>) -> Option<SnapshotModel> {
    match s {
        Some(s) => Some(s@),
        None => None,
    }
}

/// Reads a `QUEEN.phase.<agent>` message that comes in at the time `now`
/// ([`snapshot_in`]).
pub fn agent_snapshot_from_payload(subject: &str, payload: &Json, now: u64) -> (r: Option<
    AgentSnapshot,
>)
    ensures
        snapshot_model(r) == snapshot_in(subject@, payload.tree(), now),
{
    match payload {
        Json::Object(_) => {},
        _ => {
            return None;
        },
    }
    let agent_id: String = match payload.text("agent_id") {
        Some(id) => id,
        None => match strip_prefix(subject, "QUEEN.phase.") {
            Some(id) => id,
            None => {
                return None;
            },
        },
    };
    let theta = match payload.get("theta") {
        Some(Json::Number(n)) => Some(copy_number(n)),
        Some(_) => None,
        None => payload.number("phase"),
    };
    Some(
        AgentSnapshot {
            agent_id,
            theta,
            phi: payload.number("phi"),
            coherence: payload.number("coherence"),
            order_parameter: payload.number("order_parameter"),
            handedness: payload.text_or("handedness", "achiral"),
            memory_count: payload.unsigned("memory_count"),
            last_seen: now,
        },
    )
}

/// The bit with `text` behind its label; no bit where there is no text.
pub open spec fn bit(label: Seq<char>, text: Option<Seq<char>>) -> Seq<Seq<char>> {
    match text {
        Some(s) => seq![label + s],
        None => Seq::empty(),
    }
}

/// The known fields of a payload, in the order in which they are shown.
pub open spec fn payload_bits(t: Tree) -> Seq<Seq<char>> {
    let quoted = match as_text(member(t, "content"@)) {
        Some(s) => Some(cut(s, 60) + "\""@),
        None => None,
    };
    bit("agent="@, as_text(member(t, "agent_id"@))) + bit(
        "\u{3b8}="@,
        as_fixed(member(t, "theta"@), 3),
    ) + bit("\u{3a6}="@, as_fixed(member(t, "phi"@), 3)) + bit(
        "\u{39e}="@,
        as_fixed(member(t, "xi"@), 3),
    ) + bit("level="@, as_text(member(t, "consciousness_level"@))) + bit("\""@, quoted) + bit(
        "event="@,
        as_text(member(t, "event"@)),
    )
}

/// The one line that stands for a bus payload: its known fields, else its start.
pub open spec fn payload_line(t: Tree) -> Seq<char> {
    match t {
        Tree::Object(_) => if payload_bits(t).len() > 0 {
            join(payload_bits(t), " \u{b7} "@)
        } else {
            cut(json_written(t), 120)
        },
        Tree::Text(s) => cut(s, 120),
        _ => cut(json_written(t), 120),
    }
}

/// Appends the bit of a text, where there is one.
fn push_bit(bits: &mut Vec<String>, label: &str, text: Option<String>)
    ensures
        texts(final(bits)@) == texts(old(bits)@) + bit(label@, opt(text)),
{
    let ghost was = bits@;
    if let Some(s) = text {
        bits.push(cat2(label, s.as_str()));
    }
    assert(texts(bits@) =~= texts(was) + bit(label@, opt(text)));
}

/// Compact one-line summary of a bus payload, the same for every subject
/// ([`payload_line`]).
pub fn summarize_payload(_subject: &str, payload: &Json) -> (r: String)
    ensures
        r@ == payload_line(payload.tree()),
{
    match payload {
        Json::Object(_) => {
            let mut bits: Vec<String> = Vec::new();
            assert(texts(bits@) =~= Seq::empty());
            push_bit(&mut bits, "agent=", payload.text("agent_id"));
            push_bit(&mut bits, "\u{3b8}=", payload.fixed("theta", 3));
            push_bit(&mut bits, "\u{3a6}=", payload.fixed("phi", 3));
            push_bit(&mut bits, "\u{39e}=", payload.fixed("xi", 3));
            push_bit(&mut bits, "level=", payload.text("consciousness_level"));
            let quoted = match payload.text("content") {
                Some(s) => Some(cat2(truncate(s.as_str(), 60).as_str(), "\"")),
                None => None,
            };
            push_bit(&mut bits, "\"", quoted);
            push_bit(&mut bits, "event=", payload.text("event"));
            assert(texts(bits@) =~= payload_bits(payload.tree()));
            if bits.len() > 0 {
                joined(&bits, " \u{b7} ")
            } else {
                truncate(payload.compact_text().as_str(), 120)
            }
        },
        Json::Text(s) => truncate(s.as_str(), 120),
        _ => truncate(payload.compact_text().as_str(), 120),
    }
}

/// Whether a payload has none of the fields that are shown by their names.
pub open spec fn nothing_known(t: Tree) -> bool {
    &&& as_text(member(t, "agent_id"@)) is None
    &&& as_fixed(member(t, "theta"@), 3) is None
    &&& as_fixed(member(t, "phi"@), 3) is None
    &&& as_fixed(member(t, "xi"@), 3) is None
    &&& as_text(member(t, "consciousness_level"@)) is None
    &&& as_text(member(t, "content"@)) is None
    &&& as_text(member(t, "event"@)) is None
}

/// A payload without known fields, or that is no object, is shown by its own text,
/// or by the text that it is written as, cut to 120 characters.
pub proof fn law_unknown_payload_is_its_text(t: Tree)
    requires
        t is Object ==> nothing_known(t),
    ensures
        t is Text ==> payload_line(t) == cut(t->Text_0, 120),
        t !is Text ==> payload_line(t) == cut(json_written(t), 120),
        payload_line(t).len() <= 120,
{
    assert(t is Object ==> payload_bits(t) =~= Seq::empty());
}

/// What one bus message brings: a row for the Bus tab, and for two kinds of
/// subject an update for another tab.
pub struct BusFrame {
    pub line: BusLine,
    pub agent: Option<AgentSnapshot>,
    pub dream: Option<DreamEvent>,
}

/// What a [`BusFrame`] says.
pub ghost struct BusFrameModel {
    pub line: BusLineModel,
    pub agent: Option<SnapshotModel>,
    pub dream: Option<DreamModel>,
}

impl View for BusFrame {
    type V = BusFrameModel;

    open spec fn view(&self) -> BusFrameModel {
        BusFrameModel {
            line: self.line@,
            agent: snapshot_model(self.agent),
            dream: dream_model(self.dream),
        }
    }
}

/// What a bus message brings: phase messages feed the Constellation tab, dream
/// reports the Dreams tab, and every message the Bus tab.
pub open spec fn bus_frame(t: Tree, now: u64) -> BusFrameModel {
    let ts_ms = or(as_signed(member(t, "ts"@)), 0);
    let subject = or(as_text(member(t, "subject"@)), "?"@);
    let payload = or(member(t, "payload"@), Tree::Null);
    BusFrameModel {
        line: BusLineModel { ts_ms, subject, summary: payload_line(payload) },
        agent: if starts(subject, "QUEEN.phase."@) {
            snapshot_in(subject, payload, now)
        } else {
            None
        },
        dream: if subject == "KANNAKA.dreams"@ {
            dream_in(ts_ms, payload)
        } else {
            None
        },
    }
}

/// Reads one message of the bus that comes in at the time `now` ([`bus_frame`]).
pub fn bus_frame_of(v: &Json, now: u64) -> (r: BusFrame)
    ensures
        r@ == bus_frame(v.tree(), now),
{
    let ts_ms: i64 = v.signed("ts");
    let subject: String = v.text_or("subject", "?");
    let null = Json::Null;
    let payload: &Json = match v.get("payload") {
        Some(p) => p,
        None => &null,
    };
    let agent = if starts_with(subject.as_str(), "QUEEN.phase.") {
        agent_snapshot_from_payload(subject.as_str(), payload, now)
    } else {
        None
    };
    let dream = if same(subject.as_str(), "KANNAKA.dreams") {
        dream_event_from_payload(ts_ms, payload)
    } else {
        None
    };
    let summary = summarize_payload(subject.as_str(), payload);
    BusFrame { line: BusLine { ts_ms, subject, summary }, agent, dream }
}

/// What a line of `kannaka swarm tail` brings: nothing where it is blank or no
/// JSON.
pub open spec fn bus_line_frame(line: Seq<char>, now: u64) -> Option<BusFrameModel> {
    if trim(line).len() == 0 {
        None
    } else {
        match json_read(trim(line)) {
            Ok(t) => Some(bus_frame(t, now)),
            Err(_) => None,
        }
    }
}

/// Reads one line of `kannaka swarm tail` ([`bus_line_frame`]).
pub fn read_bus_line(line: &str, now: u64) -> (r: Option<BusFrame>)
    ensures
        match r {
            Some(f) => bus_line_frame(line@, now) == Some(f@),
            None => bus_line_frame(line@, now) is None,
        },
{
    let t = trimmed(line);
    if t.as_str().is_empty() {
        return None;
    }
    match parse_json(t.as_str()) {
        Ok(j) => Some(bus_frame_of(&j, now)),
        Err(_) => None,
    }
}

/// Whether a millisecond timestamp falls into the years that the calendar covers.
pub open spec fn calendar_covers(ts_ms: i64) -> bool {
    -8_334_601_228_800_000 <= ts_ms <= 8_210_266_876_799_999
}

/// Whether `c` is a decimal digit.
pub open spec fn is_digit(c: char) -> bool {
    '0' <= c <= '9'
}

/// Whether `s` is a time of day in the form `HH:MM:SS`.
pub open spec fn clock_shaped(s: Seq<char>) -> bool {
    &&& s.len() == 8
    &&& s[2] == ':' && s[5] == ':'
    &&& '0' <= s[0] <= '2' && is_digit(s[1]) && (s[0] == '2' ==> s[1] <= '3')
    &&& '0' <= s[3] <= '5' && is_digit(s[4])
    &&& '0' <= s[6] <= '5' && is_digit(s[7])
}

/// The local time of day of a millisecond timestamp.
///
/// Trusted: `chrono::DateTime::from_timestamp_millis` gives a time for exactly the
/// timestamps of the years -262143 to 262142, and its `%H:%M:%S` in the machine's
/// time zone has two digits for each of the three. Which time of day that is,
/// rests on the time zone and is not stated.
#[verifier::external_body]
fn local_clock(ts_ms: i64) -> (r: Option<String>)
    ensures
        r is Some <==> calendar_covers(ts_ms),
        r is Some ==> clock_shaped(r->Some_0@),
{
    chrono::DateTime::from_timestamp_millis(ts_ms).map(
        |dt| dt.with_timezone(&chrono::Local).format("%H:%M:%S").to_string(),
    )
}

/// What stands in the time column for a timestamp whose local time is `clock`:
/// blanks for the timestamp 0 and where there is no time.
pub open spec fn time_column(ts_ms: i64, clock: Option<Seq<char>>) -> Seq<char> {
    match clock {
        Some(s) if ts_ms != 0 => s,
        _ => "        "@,
    }
}

/// The time column for a timestamp whose local time is `clock` ([`time_column`]).
pub fn bus_ts_column(ts_ms: i64, clock: Option<String>) -> (r: String)
    ensures
        r@ == time_column(ts_ms, opt(clock)),
{
    match clock {
        Some(s) => if ts_ms != 0 {
            s
        } else {
            "        ".to_owned()
        },
        None => "        ".to_owned(),
    }
}

/// The time column for a timestamp: its local time of day, or eight blanks for
/// the timestamp 0 and for one that the calendar does not cover.
pub fn format_bus_ts(ts_ms: i64) -> (r: String)
    ensures
        ts_ms == 0 || !calendar_covers(ts_ms) ==> r@ == "        "@,
        ts_ms != 0 && calendar_covers(ts_ms) ==> clock_shaped(r@),
{
    bus_ts_column(ts_ms, local_clock(ts_ms))
}

} // verus!
