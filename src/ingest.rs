//! Records as the ingestion side receives them, with the sender's origin.

use vstd::prelude::*;

use crate::component::{ComponentView, LogComponent};
use crate::level::{level_name, LogLevel};
use crate::properties::{PairsView, Properties};
use crate::wire::display_text;
use crate::record::LogEntryRequest;

verus! {

/// Query of a request that lists records.
#[derive(Debug, Clone, Copy, PartialEq, Eq, Structural)]
pub struct GetLogsQuery {}

/// Query of a request that submits records.
#[derive(Debug, Clone, Copy, PartialEq, Eq, Structural)]
pub struct CreateLogsQuery {}

/// A received record with the address and caller identifier of its sender.
#[derive(Debug)]
pub struct LogEntry<'a> {
    pub level: LogLevel,
    pub values: Vec<LogComponent>,
    pub ts: usize,
    pub ip: &'a str,
    pub user_agent: &'a str,
    pub properties: Option<Properties>,
}

/// Attaches the sender's origin to each received record, keeping order,
/// severity, timestamp, values and properties.
pub fn with_origin<'a>(entries: Vec<LogEntryRequest>, ip: &'a str, user_agent: &'a str) -> (r: Vec<
    LogEntry<'a>,
>)
    ensures
        r@.len() == entries@.len(),
        forall|i: int|
            0 <= i < r@.len() ==> {
                let e = #[trigger] r@[i];
                let x = entries@[i];
                &&& e.level == x.level
                &&& e.values == x.values
                &&& e.ts == x.ts
                &&& e.properties == x.properties
                &&& e.ip == ip
                &&& e.user_agent == user_agent
            },
{
    let ghost received = entries@;
    let mut rest = entries;
    let mut out: Vec<LogEntry<'a>> = Vec::new();
    // Taken from the back, then put back in order.
    let mut reversed: Vec<LogEntry<'a>> = Vec::new();
    while rest.len() > 0
        invariant
            rest@ == received.take(rest@.len() as int),
            rest@.len() + reversed@.len() == received.len(),
            forall|j: int|
                0 <= j < reversed@.len() ==> {
                    let e = #[trigger] reversed@[j];
                    let x = received[received.len() - 1 - j];
                    &&& e.level == x.level
                    &&& e.values == x.values
                    &&& e.ts == x.ts
                    &&& e.properties == x.properties
                    &&& e.ip == ip
                    &&& e.user_agent == user_agent
                },
        decreases rest@.len(),
    {
        let x = rest.pop().unwrap();
        proof {
            assert(rest@ =~= received.take(rest@.len() as int));
        }
        let LogEntryRequest { level, values, ts, properties, .. } = x;
        reversed.push(LogEntry { level, values, ts, ip, user_agent, properties });
    }
    while reversed.len() > 0
        invariant
            out@.len() + reversed@.len() == received.len(),
            forall|j: int|
                0 <= j < reversed@.len() ==> {
                    let e = #[trigger] reversed@[j];
                    let x = received[received.len() - 1 - j];
                    &&& e.level == x.level
                    &&& e.values == x.values
                    &&& e.ts == x.ts
                    &&& e.properties == x.properties
                    &&& e.ip == ip
                    &&& e.user_agent == user_agent
                },
            forall|i: int|
                0 <= i < out@.len() ==> {
                    let e = #[trigger] out@[i];
                    let x = received[i];
                    &&& e.level == x.level
                    &&& e.values == x.values
                    &&& e.ts == x.ts
                    &&& e.properties == x.properties
                    &&& e.ip == ip
                    &&& e.user_agent == user_agent
                },
        decreases reversed@.len(),
    {
        let e = reversed.pop().unwrap();
        out.push(e);
    }
    out
}

} // verus!

verus! {

/// The `Debug` rendering of a string: quoted, with escapes.
pub uninterp spec fn debug_quoted(s: Seq<char>) -> Seq<char>;

/// Relies on `<str as Debug>::fmt`: the quoted, escaped form of `s`, which
/// depends on the characters of `s` alone.
#[verifier::external_body]
fn debug_quote(s: &str) -> (r: String)
    ensures
        r@ == debug_quoted(s@),
{
    format!("{:?}", s)
}

/// Items joined by `, `.
pub open spec fn join_list(items: Seq<Seq<char>>) -> Seq<char>
    decreases items.len(),
{
    if items.len() == 0 {
        Seq::empty()
    } else if items.len() == 1 {
        items[0]
    } else {
        join_list(items.drop_last()) + ", "@ + items.last()
    }
}

/// The values of a record as shown in a stored message: `[a, b]`.
pub open spec fn values_shown(values: Seq<ComponentView>) -> Seq<char> {
    "["@ + join_list(values.map_values(|c: ComponentView| display_text(c))) + "]"@
}

/// The properties of a record as shown in a stored message:
/// `Some({"k": v})`, or `None`.
pub open spec fn properties_shown(p: Option<PairsView>) -> Seq<char> {
    match p {
        None => "None"@,
        Some(pairs) => "Some({"@ + join_list(
            pairs.map_values(|e: (Seq<char>, ComponentView)| debug_quoted(e.0) + ": "@ + display_text(e.1)),
        ) + "})"@,
    }
}

/// The text stored for a received record.
pub open spec fn message_shown(
    level: LogLevel,
    values: Seq<ComponentView>,
    ip: Seq<char>,
    user_agent: Seq<char>,
    properties: Option<PairsView>,
) -> Seq<char> {
    level_name(level) + ":\n\n\t"@ + values_shown(values) + "\n\n\tip="@ + ip + "\n\n\tuser_agent="@
        + user_agent + "\n\n\tproperties="@ + properties_shown(properties)
}

proof fn lemma_join_list_push(items: Seq<Seq<char>>, x: Seq<char>)
    ensures
        join_list(items.push(x)) == if items.len() == 0 {
            x
        } else {
            join_list(items) + ", "@ + x
        },
{
    assert(items.push(x).drop_last() =~= items);
}

impl<'a> LogEntry<'a> {
    /// The text stored for this record: severity, values, origin and
    /// properties, one per paragraph.
    pub fn message(&self) -> (r: String)
        ensures
            r@ == message_shown(
                self.level,
                self.values@.map_values(|c: LogComponent| c@),
                self.ip@,
                self.user_agent@,
                match self.properties {
                    Some(p) => Some(p.pairs()),
                    None => None,
                },
            ),
    {
        let ghost vals = self.values@.map_values(|c: LogComponent| c@);
        let ghost texts = vals.map_values(|c: ComponentView| display_text(c));
        let mut out = String::from_str(self.level.as_str());
        out.append(":\n\n\t");
        out.append("[");
        let ghost head = out@;
        let n = self.values.len();
        let mut i: usize = 0;
        while i < n
            invariant
                n == self.values@.len(),
                0 <= i <= n,
                texts.len() == n,
                forall|j: int| 0 <= j < n ==> #[trigger] texts[j] == display_text(self.values@[j]@),
                out@ == head + join_list(texts.subrange(0, i as int)),
            decreases n - i,
        {
            if i > 0 {
                out.append(", ");
            }
            let shown = self.values[i].to_display_string();
            out.append(shown.as_str());
            proof {
                lemma_join_list_push(texts.subrange(0, i as int), texts[i as int]);
                assert(texts.subrange(0, i + 1) =~= texts.subrange(0, i as int).push(texts[i as int]));
            }
            i = i + 1;
        }
        assert(texts.subrange(0, n as int) =~= texts);
        out.append("]");
        out.append("\n\n\tip=");
        out.append(self.ip);
        out.append("\n\n\tuser_agent=");
        out.append(self.user_agent);
        out.append("\n\n\tproperties=");
        let ghost before_props = out@;
        assert(before_props =~= level_name(self.level) + ":\n\n\t"@ + values_shown(vals)
            + "\n\n\tip="@ + self.ip@ + "\n\n\tuser_agent="@ + self.user_agent@
            + "\n\n\tproperties="@);
        match &self.properties {
            None => out.append("None"),
            Some(p) => {
                let ghost items = p.pairs().map_values(
                    |e: (Seq<char>, ComponentView)| debug_quoted(e.0) + ": "@ + display_text(e.1),
                );
                out.append("Some({");
                let ghost start = out@;
                let m = p.len();
                let mut k: usize = 0;
                while k < m
                    invariant
                        m == p.pairs().len(),
                        0 <= k <= m,
                        items.len() == m,
                        forall|j: int|
                            0 <= j < m ==> #[trigger] items[j] == debug_quoted(p.pairs()[j].0) + ": "@
                                + display_text(p.pairs()[j].1),
                        out@ == start + join_list(items.subrange(0, k as int)),
                    decreases m - k,
                {
                    if k > 0 {
                        out.append(", ");
                    }
                    let (key, value) = p.entry(k);
                    let q = debug_quote(key.as_str());
                    out.append(q.as_str());
                    out.append(": ");
                    let shown = value.to_display_string();
                    out.append(shown.as_str());
                    proof {
                        lemma_join_list_push(items.subrange(0, k as int), items[k as int]);
                        assert(items.subrange(0, k + 1) =~= items.subrange(0, k as int).push(
                            items[k as int],
                        ));
                    }
                    k = k + 1;
                }
                assert(items.subrange(0, m as int) =~= items);
                out.append("})");
                assert(out@ =~= before_props + properties_shown(Some(p.pairs())));
            },
        }
        assert(out@ =~= message_shown(
            self.level,
            vals,
            self.ip@,
            self.user_agent@,
            match self.properties {
                Some(p) => Some(p.pairs()),
                None => None,
            },
        ));
        out
    }
}

} // verus!
