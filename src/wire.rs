//! The wire form of records: one JSON object per record, in batches as a
//! JSON array and in files one object per line.

use vstd::prelude::*;

use crate::component::{ComponentView, LogComponent};
use crate::level::level_name;
use crate::properties::{PairsView, Properties};
use crate::record::{LogEntryRequest, RecordView};

verus! {

/// `serde_json::Error`, carried opaque: the error type of an encoding call.
#[verifier::external_type_specification]
#[verifier::external_body]
pub struct ExJsonError(serde_json::Error);

/// The lower-case hexadecimal digit of `n`.
pub open spec fn hex_digit(n: u32) -> char {
    seq!['0', '1', '2', '3', '4', '5', '6', '7', '8', '9', 'a', 'b', 'c', 'd', 'e', 'f'][n as int]
}

/// How a character is written inside a JSON string literal: quote and
/// backslash escaped, the control characters with a short escape where
/// JSON has one and as `\u00xx` otherwise, everything else as it is.
pub open spec fn escape_char(c: char) -> Seq<char> {
    if c == '"' {
        seq!['\\', '"']
    } else if c == '\\' {
        seq!['\\', '\\']
    } else if c == '\u{8}' {
        seq!['\\', 'b']
    } else if c == '\t' {
        seq!['\\', 't']
    } else if c == '\n' {
        seq!['\\', 'n']
    } else if c == '\u{c}' {
        seq!['\\', 'f']
    } else if c == '\r' {
        seq!['\\', 'r']
    } else if (c as u32) < 0x20 {
        seq!['\\', 'u', '0', '0', hex_digit((c as u32) / 16), hex_digit((c as u32) % 16)]
    } else {
        seq![c]
    }
}

/// The characters of `s`, each escaped.
pub open spec fn escaped(s: Seq<char>) -> Seq<char>
    decreases s.len(),
{
    if s.len() == 0 {
        Seq::empty()
    } else {
        escaped(s.drop_last()) + escape_char(s.last())
    }
}

/// The JSON string literal of `s`.
pub open spec fn json_quoted(s: Seq<char>) -> Seq<char> {
    seq!['"'] + escaped(s) + seq!['"']
}

/// Relies on `serde_json::to_string` for a `str`: it writes the string
/// literal through serde_json's escape table into a `Vec`, which cannot
/// fail.
#[verifier::external_body]
fn quote(s: &str) -> (r: Result<String, serde_json::Error>)
    ensures
        r is Ok,
        r matches Ok(t) ==> t@ == json_quoted(s@),
{
    serde_json::to_string(s)
}

/// The decimal digit `d`.
pub open spec fn digit(d: nat) -> Seq<char> {
    if d == 0 {
        "0"@
    } else if d == 1 {
        "1"@
    } else if d == 2 {
        "2"@
    } else if d == 3 {
        "3"@
    } else if d == 4 {
        "4"@
    } else if d == 5 {
        "5"@
    } else if d == 6 {
        "6"@
    } else if d == 7 {
        "7"@
    } else if d == 8 {
        "8"@
    } else {
        "9"@
    }
}

/// The decimal numeral of `n`, without leading zeros.
pub open spec fn decimal(n: nat) -> Seq<char>
    decreases n,
{
    if n < 10 {
        digit(n)
    } else {
        decimal(n / 10) + digit(n % 10)
    }
}

/// The decimal numeral of `i`, with a leading `-` when negative.
pub open spec fn int_text(i: int) -> Seq<char> {
    if i < 0 {
        "-"@ + decimal((-i) as nat)
    } else {
        decimal(i as nat)
    }
}

fn digit_str(d: u64) -> (r: &'static str)
    requires
        d < 10,
    ensures
        r@ == digit(d as nat),
{
    if d == 0 {
        "0"
    } else if d == 1 {
        "1"
    } else if d == 2 {
        "2"
    } else if d == 3 {
        "3"
    } else if d == 4 {
        "4"
    } else if d == 5 {
        "5"
    } else if d == 6 {
        "6"
    } else if d == 7 {
        "7"
    } else if d == 8 {
        "8"
    } else {
        "9"
    }
}

/// Appends the decimal numeral of `n` to `out`.
pub fn write_decimal(n: u64, out: &mut String)
    ensures
        final(out)@ == old(out)@ + decimal(n as nat),
    decreases n,
{
    if n >= 10 {
        write_decimal(n / 10, out);
    }
    out.append(digit_str(n % 10));
    assert(final(out)@ =~= old(out)@ + decimal(n as nat));
}

/// State of the JSON number recogniser after a prefix: 0 start, 1 after
/// `-`, 2 after a leading `0`, 3 in integer digits, 4 after `.`, 5 in
/// fraction digits, 6 after `e`, 7 after the exponent's sign, 8 in exponent
/// digits, 9 rejected.
pub open spec fn number_step(state: u8, c: char) -> u8 {
    let digit = '0' <= c && c <= '9';
    let exp = c == 'e' || c == 'E';
    if state == 0 {
        if c == '-' { 1 } else if c == '0' { 2 } else if digit { 3 } else { 9 }
    } else if state == 1 {
        if c == '0' { 2 } else if digit { 3 } else { 9 }
    } else if state == 2 {
        if c == '.' { 4 } else if exp { 6 } else { 9 }
    } else if state == 3 {
        if digit { 3 } else if c == '.' { 4 } else if exp { 6 } else { 9 }
    } else if state == 4 {
        if digit { 5 } else { 9 }
    } else if state == 5 {
        if digit { 5 } else if exp { 6 } else { 9 }
    } else if state == 6 {
        if c == '+' || c == '-' { 7 } else if digit { 8 } else { 9 }
    } else if state == 7 || state == 8 {
        if digit { 8 } else { 9 }
    } else {
        9
    }
}

/// The recogniser's state after reading `s`.
pub open spec fn number_state(s: Seq<char>) -> u8
    decreases s.len(),
{
    if s.len() == 0 {
        0
    } else {
        number_step(number_state(s.drop_last()), s.last())
    }
}

/// Whether `s` is a JSON number: `-?(0|[1-9][0-9]*)(.[0-9]+)?([eE][+-]?[0-9]+)?`.
pub open spec fn is_json_number(s: Seq<char>) -> bool {
    let q = number_state(s);
    q == 2 || q == 3 || q == 5 || q == 8
}

fn number_step_exec(state: u8, c: char) -> (r: u8)
    ensures
        r == number_step(state, c),
{
    let digit = '0' <= c && c <= '9';
    let exp = c == 'e' || c == 'E';
    if state == 0 {
        if c == '-' { 1 } else if c == '0' { 2 } else if digit { 3 } else { 9 }
    } else if state == 1 {
        if c == '0' { 2 } else if digit { 3 } else { 9 }
    } else if state == 2 {
        if c == '.' { 4 } else if exp { 6 } else { 9 }
    } else if state == 3 {
        if digit { 3 } else if c == '.' { 4 } else if exp { 6 } else { 9 }
    } else if state == 4 {
        if digit { 5 } else { 9 }
    } else if state == 5 {
        if digit { 5 } else if exp { 6 } else { 9 }
    } else if state == 6 {
        if c == '+' || c == '-' { 7 } else if digit { 8 } else { 9 }
    } else if state == 7 || state == 8 {
        if digit { 8 } else { 9 }
    } else {
        9
    }
}

/// Whether `t` is a JSON number.
pub fn is_number_text(t: &str) -> (r: bool)
    ensures
        r == is_json_number(t@),
{
    let n = t.unicode_len();
    let mut state: u8 = 0;
    let mut i: usize = 0;
    while i < n
        invariant
            n == t@.len(),
            0 <= i <= n,
            state == number_state(t@.take(i as int)),
        decreases n - i,
    {
        assert(t@.take(i + 1).drop_last() =~= t@.take(i as int));
        state = number_step_exec(state, t.get_char(i));
        i = i + 1;
    }
    assert(t@.take(n as int) =~= t@);
    state == 2 || state == 3 || state == 5 || state == 8
}

/// The JSON text of one component. An undefined value is written as `null`,
/// and so is a real whose text is not a JSON number.
pub open spec fn component_text(c: ComponentView) -> Seq<char> {
    match c {
        ComponentView::Integer(i) => int_text(i),
        ComponentView::UInteger(n) => decimal(n),
        ComponentView::Real(t) => if is_json_number(t) {
            t
        } else {
            "null"@
        },
        ComponentView::Text(s) => json_quoted(s),
        ComponentView::Boolean(b) => if b {
            "true"@
        } else {
            "false"@
        },
        ComponentView::Undefined => "null"@,
        ComponentView::Null => "null"@,
    }
}

/// Items joined by commas.
pub open spec fn join(items: Seq<Seq<char>>) -> Seq<char>
    decreases items.len(),
{
    if items.len() == 0 {
        Seq::empty()
    } else if items.len() == 1 {
        items[0]
    } else {
        join(items.drop_last()) + ","@ + items.last()
    }
}

/// The JSON array of a sequence of components.
pub open spec fn values_text(values: Seq<ComponentView>) -> Seq<char> {
    "["@ + join(values.map_values(|c: ComponentView| component_text(c))) + "]"@
}

/// The JSON text of one property entry.
pub open spec fn entry_text(e: (Seq<char>, ComponentView)) -> Seq<char> {
    json_quoted(e.0) + ":"@ + component_text(e.1)
}

/// The JSON object of property entries, in their order.
pub open spec fn properties_text(pairs: PairsView) -> Seq<char> {
    "{"@ + join(pairs.map_values(|e: (Seq<char>, ComponentView)| entry_text(e))) + "}"@
}

/// The leading members of a record: level, values and ts.
pub open spec fn record_head(r: RecordView) -> Seq<char> {
    "{\"level\":\""@ + level_name(r.level) + "\",\"values\":"@ + values_text(r.values)
        + ",\"ts\":"@ + decimal(r.ts)
}

/// The properties member of a record, when present.
pub open spec fn record_properties(r: RecordView) -> Seq<char> {
    match r.properties {
        Some(p) => ",\"properties\":"@ + properties_text(p),
        None => Seq::empty(),
    }
}

/// The JSON object of one record: level, values, ts and, when present,
/// properties. Origin metadata is not sent.
pub open spec fn record_text(r: RecordView) -> Seq<char> {
    record_head(r) + record_properties(r) + "}"@
}

/// The remote payload for a batch: a JSON array of records.
pub open spec fn batch_text(records: Seq<RecordView>) -> Seq<char> {
    "["@ + join(records.map_values(|r: RecordView| record_text(r))) + "]"@
}

/// The file payload for a batch: one record per line.
pub open spec fn lines_text(records: Seq<RecordView>) -> Seq<char>
    decreases records.len(),
{
    if records.len() == 0 {
        Seq::empty()
    } else {
        lines_text(records.drop_last()) + record_text(records.last()) + "\n"@
    }
}

/// Joining one more item adds a comma and the item, unless it is the first.
pub proof fn lemma_join_push(items: Seq<Seq<char>>, x: Seq<char>)
    ensures
        join(items.push(x)) == if items.len() == 0 {
            x
        } else {
            join(items) + ","@ + x
        },
{
    assert(items.push(x).drop_last() =~= items);
}

/// Appends the JSON string literal of `s` to `out`.
fn write_quoted(s: &str, out: &mut String)
    ensures
        final(out)@ == old(out)@ + json_quoted(s@),
{
    match quote(s) {
        Ok(q) => out.append(q.as_str()),
        Err(_) => {},
    }
}

/// Appends the JSON text of `c` to `out`.
pub fn write_component(c: &LogComponent, out: &mut String)
    ensures
        final(out)@ == old(out)@ + component_text(c@),
{
    match c {
        LogComponent::Integer(i) => {
            let v: isize = *i;
            if v < 0 {
                out.append("-");
                let m: i128 = -(v as i128);
                write_decimal(m as u64, out);
            } else {
                write_decimal(v as u64, out);
            }
        },
        LogComponent::UInteger(n) => write_decimal(*n as u64, out),
        LogComponent::Real(t) => {
            if is_number_text(t.as_str()) {
                out.append(t.as_str());
            } else {
                out.append("null");
            }
        },
        LogComponent::String(s) => write_quoted(s.as_str(), out),
        LogComponent::Boolean(b) => {
            if *b {
                out.append("true");
            } else {
                out.append("false");
            }
        },
        LogComponent::Undefined => out.append("null"),
        LogComponent::Null => out.append("null"),
    }
}

/// Appends the JSON array of `values` to `out`.
fn write_values(values: &Vec<LogComponent>, out: &mut String)
    ensures
        final(out)@ == old(out)@ + values_text(values@.map_values(|c: LogComponent| c@)),
{
    let ghost texts = values@.map_values(|c: LogComponent| c@).map_values(
        |c: ComponentView| component_text(c),
    );
    let ghost start = out@;
    out.append("[");
    let n = values.len();
    let mut i: usize = 0;
    while i < n
        invariant
            n == values@.len(),
            0 <= i <= n,
            texts.len() == n,
            forall|j: int| 0 <= j < n ==> #[trigger] texts[j] == component_text(values@[j]@),
            out@ == start + "["@ + join(texts.subrange(0, i as int)),
        decreases n - i,
    {
        if i > 0 {
            out.append(",");
        }
        write_component(&values[i], out);
        proof {
            lemma_join_push(texts.subrange(0, i as int), texts[i as int]);
            assert(texts.subrange(0, i + 1) =~= texts.subrange(0, i as int).push(texts[i as int]));
        }
        i = i + 1;
    }
    out.append("]");
    assert(texts.subrange(0, n as int) =~= texts);
}

/// Appends the JSON object of the property entries to `out`.
fn write_properties(props: &Properties, out: &mut String)
    ensures
        final(out)@ == old(out)@ + properties_text(props.pairs()),
{
    let ghost texts = props.pairs().map_values(|e: (Seq<char>, ComponentView)| entry_text(e));
    let ghost start = out@;
    out.append("{");
    let n = props.len();
    let mut i: usize = 0;
    while i < n
        invariant
            n == props.pairs().len(),
            0 <= i <= n,
            texts.len() == n,
            forall|j: int| 0 <= j < n ==> #[trigger] texts[j] == entry_text(props.pairs()[j]),
            out@ == start + "{"@ + join(texts.subrange(0, i as int)),
        decreases n - i,
    {
        if i > 0 {
            out.append(",");
        }
        let (k, v) = props.entry(i);
        write_quoted(k.as_str(), out);
        out.append(":");
        write_component(v, out);
        proof {
            lemma_join_push(texts.subrange(0, i as int), texts[i as int]);
            assert(texts.subrange(0, i + 1) =~= texts.subrange(0, i as int).push(texts[i as int]));
        }
        i = i + 1;
    }
    out.append("}");
    assert(texts.subrange(0, n as int) =~= texts);
}

/// Appends the JSON object of `record` to `out`.
pub fn write_record(record: &LogEntryRequest, out: &mut String)
    ensures
        final(out)@ == old(out)@ + record_text(record@),
{
    let ghost start = out@;
    out.append("{\"level\":\"");
    out.append(record.level.as_str());
    out.append("\",\"values\":");
    write_values(&record.values, out);
    out.append(",\"ts\":");
    write_decimal(record.ts as u64, out);
    assert(out@ =~= start + record_head(record@));
    let ghost after_head = out@;
    match &record.properties {
        Some(p) => {
            out.append(",\"properties\":");
            write_properties(p, out);
        },
        None => {},
    }
    assert(out@ =~= after_head + record_properties(record@));
    out.append("}");
    assert(out@ =~= start + record_text(record@));
}

/// The JSON text of one record.
pub fn encode_record(record: &LogEntryRequest) -> (r: String)
    ensures
        r@ == record_text(record@),
{
    let mut out = String::new();
    write_record(record, &mut out);
    assert(out@ =~= record_text(record@));
    out
}

} // verus!

verus! {

/// The plain text of a component, as shown to a reader.
pub open spec fn display_text(c: ComponentView) -> Seq<char> {
    match c {
        ComponentView::Integer(i) => int_text(i),
        ComponentView::UInteger(n) => decimal(n),
        ComponentView::Real(t) => t,
        ComponentView::Text(s) => s,
        ComponentView::Boolean(b) => if b {
            "true"@
        } else {
            "false"@
        },
        ComponentView::Undefined => "undefined"@,
        ComponentView::Null => "null"@,
    }
}

impl LogComponent {
    /// The plain text of this component: numbers in decimal, strings as they
    /// are, `undefined` and `null` by name.
    pub fn to_display_string(&self) -> (r: String)
        ensures
            r@ == display_text(self@),
    {
        let mut out = String::new();
        match self {
            LogComponent::Integer(i) => {
                let v: isize = *i;
                if v < 0 {
                    out.append("-");
                    let m: i128 = -(v as i128);
                    write_decimal(m as u64, &mut out);
                } else {
                    write_decimal(v as u64, &mut out);
                }
            },
            LogComponent::UInteger(n) => write_decimal(*n as u64, &mut out),
            LogComponent::Real(t) => out.append(t.as_str()),
            LogComponent::String(s) => out.append(s.as_str()),
            LogComponent::Boolean(b) => {
                if *b {
                    out.append("true");
                } else {
                    out.append("false");
                }
            },
            LogComponent::Undefined => out.append("undefined"),
            LogComponent::Null => out.append("null"),
        }
        assert(out@ =~= display_text(self@));
        out
    }
}

} // verus!
