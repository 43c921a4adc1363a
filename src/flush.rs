//! One flush cycle: per-destination selection of the drained batch, the
//! payload each destination is sent, how a destination's reply is judged,
//! and how the failures of a cycle are reported.

use vstd::prelude::*;

use crate::config::LogsConfig;
use crate::level::{level_of, spec_at_least, Level};
use crate::record::{LogEntryRequest, RecordView};
use crate::wire::{batch_text, join, lemma_join_push, lines_text, record_text, write_record};

verus! {

/// `std::io::Error`, carried opaque: a file destination's failure.
#[verifier::external_type_specification]
#[verifier::external_body]
pub struct ExIoError(std::io::Error);

/// `reqwest::Error`, carried opaque: a request that failed or a reply that
/// could not be read.
#[verifier::external_type_specification]
#[verifier::external_body]
pub struct ExReqwestError(reqwest::Error);

/// A failure of one destination in a flush cycle, or all of them.
#[derive(Debug)]
pub enum FlushError {
    /// A file could not be opened, written or flushed.
    IO(std::io::Error),
    /// The request could not be sent, or its reply could not be read.
    Reqwest(reqwest::Error),
    /// A record could not be encoded. The encoder in this crate always
    /// succeeds; the variant is kept for callers that encode themselves.
    Serde(serde_json::Error),
    /// The endpoint answered, but not with success.
    Unsuccessful(String),
    /// Two or more failures, in the order the destinations were tried.
    Multi(Vec<FlushError>),
}

/// The contents of a batch of records.
pub open spec fn batch_view(batch: Seq<LogEntryRequest>) -> Seq<RecordView> {
    batch.map_values(|r: LogEntryRequest| r@)
}

/// Whether a destination with minimum severity `min` receives `r`.
pub open spec fn receives(r: RecordView, min: Level) -> bool {
    spec_at_least(level_of(r.level), min)
}

/// The records of `records` that a destination with minimum severity `min`
/// receives, in batch order.
pub open spec fn selected(records: Seq<RecordView>, min: Level) -> Seq<RecordView>
    decreases records.len(),
{
    if records.len() == 0 {
        Seq::empty()
    } else if receives(records.last(), min) {
        selected(records.drop_last(), min).push(records.last())
    } else {
        selected(records.drop_last(), min)
    }
}

proof fn lemma_selected_step(records: Seq<RecordView>, i: int, min: Level)
    requires
        0 <= i < records.len(),
    ensures
        selected(records.take(i + 1), min) == if receives(records[i], min) {
            selected(records.take(i), min).push(records[i])
        } else {
            selected(records.take(i), min)
        },
{
    assert(records.take(i + 1).drop_last() =~= records.take(i));
}

/// A destination receives exactly the records at or above its minimum
/// severity, each as often as it occurs in the batch.
pub proof fn lemma_selected_members(records: Seq<RecordView>, min: Level, r: RecordView)
    ensures
        selected(records, min).to_multiset().count(r) == if receives(r, min) {
            records.to_multiset().count(r)
        } else {
            0
        },
    decreases records.len(),
{
    if records.len() > 0 {
        lemma_selected_members(records.drop_last(), min, r);
        let rest = records.drop_last();
        assert(records =~= rest.push(records.last()));
        rest.to_multiset_ensures();
        selected(rest, min).to_multiset_ensures();
        broadcast use vstd::multiset::group_multiset_axioms;
    } else {
        broadcast use vstd::multiset::group_multiset_axioms;
        records.to_multiset_ensures();
        selected(records, min).to_multiset_ensures();
    }
}

/// Selection keeps the order of the batch: the selection of a batch that
/// arrives in two parts is the selection of the first part followed by that
/// of the second.
pub proof fn lemma_selected_append(a: Seq<RecordView>, b: Seq<RecordView>, min: Level)
    ensures
        selected(a + b, min) == selected(a, min) + selected(b, min),
    decreases b.len(),
{
    if b.len() == 0 {
        assert(a + b =~= a);
        assert(selected(a, min) + selected(b, min) =~= selected(a, min));
    } else {
        lemma_selected_append(a, b.drop_last(), min);
        assert((a + b).drop_last() =~= a + b.drop_last());
        assert((a + b).last() == b.last());
        if receives(b.last(), min) {
            assert(selected(a, min) + selected(b, min) =~= (selected(a, min) + selected(
                b.drop_last(),
                min,
            )).push(b.last()));
        }
    }
}

/// File payloads of successive flushes add up: the text appended for a
/// batch that arrives in two parts is the text of the first part followed
/// by that of the second, so a second flush appends after the first.
pub proof fn lemma_lines_append(a: Seq<RecordView>, b: Seq<RecordView>)
    ensures
        lines_text(a + b) == lines_text(a) + lines_text(b),
    decreases b.len(),
{
    if b.len() == 0 {
        assert(a + b =~= a);
        assert(lines_text(a) + lines_text(b) =~= lines_text(a));
    } else {
        lemma_lines_append(a, b.drop_last());
        assert((a + b).drop_last() =~= a + b.drop_last());
        assert((a + b).last() == b.last());
        assert(lines_text(a) + lines_text(b) =~= lines_text(a) + lines_text(b.drop_last())
            + record_text(b.last()) + "\n"@);
    }
}

/// The JSON array of the records of `batch` that a destination with minimum
/// severity `min` receives; `None` when it receives none.
pub fn remote_body(batch: &Vec<LogEntryRequest>, min: Level) -> (r: Option<String>)
    ensures
        r is None <==> selected(batch_view(batch@), min).len() == 0,
        r matches Some(t) ==> t@ == batch_text(selected(batch_view(batch@), min)),
{
    let ghost records = batch_view(batch@);
    let mut out = String::new();
    out.append("[");
    let mut count: usize = 0;
    let n = batch.len();
    let mut i: usize = 0;
    while i < n
        invariant
            n == batch@.len(),
            records == batch_view(batch@),
            0 <= i <= n,
            count == selected(records.take(i as int), min).len(),
            count <= i,
            out@ == "["@ + join(
                selected(records.take(i as int), min).map_values(|r: RecordView| record_text(r)),
            ),
        decreases n - i,
    {
        proof {
            lemma_selected_step(records, i as int, min);
        }
        let ghost sel = selected(records.take(i as int), min);
        let record = &batch[i];
        if record.level_value().at_least(min) {
            if count > 0 {
                out.append(",");
            }
            write_record(record, &mut out);
            proof {
                let texts = sel.map_values(|r: RecordView| record_text(r));
                lemma_join_push(texts, record_text(records[i as int]));
                assert(sel.push(records[i as int]).map_values(|r: RecordView| record_text(r))
                    =~= texts.push(record_text(records[i as int])));
            }
            count = count + 1;
        }
        i = i + 1;
    }
    out.append("]");
    assert(records.take(n as int) =~= records);
    if count == 0 {
        None
    } else {
        Some(out)
    }
}

/// One line per record of `batch` that a destination with minimum severity
/// `min` receives; `None` when it receives none.
pub fn file_text(batch: &Vec<LogEntryRequest>, min: Level) -> (r: Option<String>)
    ensures
        r is None <==> selected(batch_view(batch@), min).len() == 0,
        r matches Some(t) ==> t@ == lines_text(selected(batch_view(batch@), min)),
{
    let ghost records = batch_view(batch@);
    let mut out = String::new();
    let mut count: usize = 0;
    let n = batch.len();
    let mut i: usize = 0;
    while i < n
        invariant
            n == batch@.len(),
            records == batch_view(batch@),
            0 <= i <= n,
            count == selected(records.take(i as int), min).len(),
            count <= i,
            out@ == lines_text(selected(records.take(i as int), min)),
        decreases n - i,
    {
        proof {
            lemma_selected_step(records, i as int, min);
        }
        let ghost sel = selected(records.take(i as int), min);
        let record = &batch[i];
        if record.level_value().at_least(min) {
            write_record(record, &mut out);
            out.append("\n");
            proof {
                assert(sel.push(records[i as int]).drop_last() =~= sel);
            }
            count = count + 1;
        }
        i = i + 1;
    }
    assert(records.take(n as int) =~= records);
    if count == 0 {
        None
    } else {
        Some(out)
    }
}

} // verus!

verus! {

/// What one remote destination is sent in a cycle.
#[derive(Debug)]
pub struct RemoteDelivery {
    /// `{base_url}/logs`.
    pub url: String,
    pub user_agent: String,
    /// The JSON array of the selected records.
    pub body: String,
}

/// What one file destination is sent in a cycle.
#[derive(Debug)]
pub struct FileDelivery {
    /// One line per selected record.
    pub text: String,
}

/// The work of one cycle: one entry per configured destination, in
/// configuration order, `None` for a destination that receives nothing.
#[derive(Debug)]
pub struct FlushPlan {
    pub remote: Vec<Option<RemoteDelivery>>,
    pub files: Vec<Option<FileDelivery>>,
}

/// `d` is what a remote destination at `url` with minimum severity `min`
/// is sent for `records`.
pub open spec fn remote_planned(
    d: Option<RemoteDelivery>,
    url: Seq<char>,
    min: Level,
    user_agent: Seq<char>,
    records: Seq<RecordView>,
) -> bool {
    match d {
        None => selected(records, min).len() == 0,
        Some(d) => {
            &&& selected(records, min).len() > 0
            &&& d.url@ == url + "/logs"@
            &&& d.user_agent@ == user_agent
            &&& d.body@ == batch_text(selected(records, min))
        },
    }
}

/// `d` is what a file destination with minimum severity `min` is sent for
/// `records`.
pub open spec fn file_planned(d: Option<FileDelivery>, min: Level, records: Seq<RecordView>) -> bool {
    match d {
        None => selected(records, min).len() == 0,
        Some(d) => {
            &&& selected(records, min).len() > 0
            &&& d.text@ == lines_text(selected(records, min))
        },
    }
}

impl FlushPlan {
    /// Whether no destination is sent anything.
    pub open spec fn spec_is_idle(&self) -> bool {
        &&& forall|i: int| 0 <= i < self.remote@.len() ==> #[trigger] self.remote@[i] is None
        &&& forall|i: int| 0 <= i < self.files@.len() ==> #[trigger] self.files@[i] is None
    }
}

/// Plans a cycle for a drained batch: every destination is considered, each
/// with its own selection, whatever happens to the others.
pub fn plan_flush(config: &LogsConfig, batch: &Vec<LogEntryRequest>) -> (r: FlushPlan)
    ensures
        r.remote@.len() == config.api_writers@.len(),
        forall|i: int|
            0 <= i < r.remote@.len() ==> remote_planned(
                #[trigger] r.remote@[i],
                config.api_writers@[i].api_url@,
                config.api_writers@[i].log_level,
                config.user_agent@,
                batch_view(batch@),
            ),
        r.files@.len() == config.file_writers@.len(),
        forall|i: int|
            0 <= i < r.files@.len() ==> file_planned(
                #[trigger] r.files@[i],
                config.file_writers@[i].log_level,
                batch_view(batch@),
            ),
        batch@.len() == 0 ==> r.spec_is_idle(),
{
    let mut remote: Vec<Option<RemoteDelivery>> = Vec::new();
    let n = config.api_writers.len();
    let mut i: usize = 0;
    while i < n
        invariant
            n == config.api_writers@.len(),
            0 <= i <= n,
            remote@.len() == i,
            forall|j: int|
                0 <= j < i ==> remote_planned(
                    #[trigger] remote@[j],
                    config.api_writers@[j].api_url@,
                    config.api_writers@[j].log_level,
                    config.user_agent@,
                    batch_view(batch@),
                ),
        decreases n - i,
    {
        let dest = &config.api_writers[i];
        let d = match remote_body(batch, dest.log_level) {
            None => None,
            Some(body) => {
                let mut url = dest.api_url.clone();
                url.append("/logs");
                Some(RemoteDelivery { url, user_agent: config.user_agent.clone(), body })
            },
        };
        remote.push(d);
        i = i + 1;
    }
    let mut files: Vec<Option<FileDelivery>> = Vec::new();
    let m = config.file_writers.len();
    let mut k: usize = 0;
    while k < m
        invariant
            m == config.file_writers@.len(),
            0 <= k <= m,
            files@.len() == k,
            forall|j: int|
                0 <= j < k ==> file_planned(
                    #[trigger] files@[j],
                    config.file_writers@[j].log_level,
                    batch_view(batch@),
                ),
        decreases m - k,
    {
        let dest = &config.file_writers[k];
        let d = match file_text(batch, dest.log_level) {
            None => None,
            Some(text) => Some(FileDelivery { text }),
        };
        files.push(d);
        k = k + 1;
    }
    proof {
        if batch@.len() == 0 {
            assert forall|i: int| 0 <= i < remote@.len() implies #[trigger] remote@[i] is None by {
                assert(selected(batch_view(batch@), config.api_writers@[i].log_level).len() == 0);
            }
            assert forall|i: int| 0 <= i < files@.len() implies #[trigger] files@[i] is None by {
                assert(selected(batch_view(batch@), config.file_writers@[i].log_level).len() == 0);
            }
        }
    }
    FlushPlan { remote, files }
}

/// `plan` is the cycle that `config` calls for on `batch`.
pub open spec fn planned_for(plan: FlushPlan, config: LogsConfig, batch: Seq<LogEntryRequest>) -> bool {
    &&& plan.remote@.len() == config.api_writers@.len()
    &&& forall|i: int|
        0 <= i < plan.remote@.len() ==> remote_planned(
            #[trigger] plan.remote@[i],
            config.api_writers@[i].api_url@,
            config.api_writers@[i].log_level,
            config.user_agent@,
            batch_view(batch),
        )
    &&& plan.files@.len() == config.file_writers@.len()
    &&& forall|i: int|
        0 <= i < plan.files@.len() ==> file_planned(
            #[trigger] plan.files@[i],
            config.file_writers@[i].log_level,
            batch_view(batch),
        )
}

/// Plans the cycle for a drained batch. An empty drain plans nothing: no
/// destination is touched and the cycle succeeds at once.
pub fn plan_cycle(config: &LogsConfig, batch: &Vec<LogEntryRequest>) -> (r: Option<FlushPlan>)
    ensures
        r is None <==> batch@.len() == 0,
        r matches Some(plan) ==> planned_for(plan, *config, batch@),
{
    if batch.len() == 0 {
        None
    } else {
        Some(plan_flush(config, batch))
    }
}

/// Whether an HTTP status means success.
pub fn status_ok(code: u16) -> (r: bool)
    ensures
        r == (200 <= code < 300),
{
    200 <= code && code < 300
}

/// How a remote destination answered a delivery.
#[derive(Debug)]
pub enum RemoteReply {
    /// The request could not be sent.
    Transport(reqwest::Error),
    /// The status was not a success; the reply text, if it could be read.
    Rejected { text: Option<String> },
    /// The status was a success but the reply was not JSON.
    Unreadable(reqwest::Error),
    /// The reply was JSON: its boolean `success` member, if any, and the
    /// reply as shown in a report.
    Answered { success: Option<bool>, shown: String },
}

/// The failure that a reply amounts to, if any.
pub open spec fn reply_failure(reply: RemoteReply, r: Option<FlushError>) -> bool {
    match reply {
        RemoteReply::Transport(e) => r == Some(FlushError::Reqwest(e)),
        RemoteReply::Rejected { text } => r matches Some(FlushError::Unsuccessful(m)) && m@ == match text {
            Some(t) => t@,
            None => "(failed to get response text)"@,
        },
        RemoteReply::Unreadable(e) => r == Some(FlushError::Reqwest(e)),
        RemoteReply::Answered { success, shown } => if success == Some(true) {
            r is None
        } else {
            r matches Some(FlushError::Unsuccessful(m)) && m@ == "Received unsuccessful response: "@
                + shown@
        },
    }
}

/// Judges a remote destination's reply: only a JSON reply whose `success`
/// member is `true` is a success.
pub fn reply_error(reply: RemoteReply) -> (r: Option<FlushError>)
    ensures
        reply_failure(reply, r),
{
    match reply {
        RemoteReply::Transport(e) => Some(FlushError::Reqwest(e)),
        RemoteReply::Rejected { text } => Some(
            FlushError::Unsuccessful(
                match text {
                    Some(t) => t,
                    None => String::from_str("(failed to get response text)"),
                },
            ),
        ),
        RemoteReply::Unreadable(e) => Some(FlushError::Reqwest(e)),
        RemoteReply::Answered { success, shown } => {
            if success == Some(true) {
                None
            } else {
                let mut m = String::from_str("Received unsuccessful response: ");
                m.append(shown.as_str());
                Some(FlushError::Unsuccessful(m))
            }
        },
    }
}

/// The failures among per-destination outcomes, in order.
pub open spec fn failures(outcomes: Seq<Option<FlushError>>) -> Seq<FlushError>
    decreases outcomes.len(),
{
    if outcomes.len() == 0 {
        Seq::empty()
    } else {
        match outcomes.last() {
            Some(e) => failures(outcomes.drop_last()).push(e),
            None => failures(outcomes.drop_last()),
        }
    }
}

/// The result that a cycle with these failures reports: success for none,
/// the failure itself for one, and all of them in order for more.
pub open spec fn aggregated(errs: Seq<FlushError>, r: Result<(), FlushError>) -> bool {
    if errs.len() == 0 {
        r is Ok
    } else if errs.len() == 1 {
        r == Err::<(), FlushError>(errs[0])
    } else {
        r matches Err(FlushError::Multi(v)) && v@ == errs
    }
}

/// Reports the failures of a cycle as one result.
pub fn aggregate(errs: Vec<FlushError>) -> (r: Result<(), FlushError>)
    ensures
        aggregated(errs@, r),
{
    let n = errs.len();
    if n == 0 {
        Ok(())
    } else if n == 1 {
        let mut v = errs;
        match v.pop() {
            Some(e) => Err(e),
            None => Ok(()),
        }
    } else {
        Err(FlushError::Multi(errs))
    }
}

/// The failures collected during one cycle.
#[derive(Debug)]
pub struct FlushErrors {
    errors: Vec<FlushError>,
}

impl View for FlushErrors {
    type V = Seq<FlushError>;

    closed spec fn view(&self) -> Seq<FlushError> {
        self.errors@
    }
}

impl FlushErrors {
    /// No failures yet.
    pub fn new() -> (r: FlushErrors)
        ensures
            r@ == Seq::<FlushError>::empty(),
    {
        FlushErrors { errors: Vec::new() }
    }

    /// Notes the outcome of one destination.
    pub fn record(&mut self, outcome: Option<FlushError>)
        ensures
            final(self)@ == old(self)@ + failures(seq![outcome]),
    {
        let ghost before = self@;
        proof {
            lemma_failures_one(outcome);
        }
        match outcome {
            Some(e) => {
                self.errors.push(e);
            },
            None => {},
        }
        assert(self@ =~= before + failures(seq![outcome]));
    }

    /// Notes a failure.
    pub fn push(&mut self, e: FlushError)
        ensures
            final(self)@ == old(self)@.push(e),
    {
        self.errors.push(e);
    }

    /// The result of the cycle.
    pub fn finish(self) -> (r: Result<(), FlushError>)
        ensures
            aggregated(self@, r),
    {
        aggregate(self.errors)
    }
}

proof fn lemma_failures_append(a: Seq<Option<FlushError>>, b: Seq<Option<FlushError>>)
    ensures
        failures(a + b) == failures(a) + failures(b),
    decreases b.len(),
{
    if b.len() == 0 {
        assert(a + b =~= a);
        assert(failures(a) + failures(b) =~= failures(a));
    } else {
        lemma_failures_append(a, b.drop_last());
        assert((a + b).drop_last() =~= a + b.drop_last());
        assert((a + b).last() == b.last());
        if let Some(e) = b.last() {
            assert(failures(a) + failures(b) =~= (failures(a) + failures(b.drop_last())).push(e));
        }
    }
}

/// A destination that fails affects nothing but its own outcome: when
/// exactly one destination of a cycle fails, the cycle reports exactly that
/// failure, unwrapped, whatever position it had.
pub proof fn lemma_single_failure_isolated(outcomes: Seq<Option<FlushError>>, k: int, e: FlushError)
    requires
        0 <= k < outcomes.len(),
        outcomes[k] == Some(e),
        forall|j: int| 0 <= j < outcomes.len() && j != k ==> #[trigger] outcomes[j] is None,
    ensures
        failures(outcomes) == seq![e],
        forall|r: Result<(), FlushError>| aggregated(failures(outcomes), r) <==> r == Err::<(), FlushError>(e),
{
    lemma_failures_none(outcomes.take(k));
    lemma_failures_none(outcomes.skip(k + 1));
    assert(outcomes =~= outcomes.take(k) + seq![outcomes[k]] + outcomes.skip(k + 1));
    lemma_failures_append(outcomes.take(k) + seq![outcomes[k]], outcomes.skip(k + 1));
    lemma_failures_append(outcomes.take(k), seq![outcomes[k]]);
    lemma_failures_one(outcomes[k]);
    assert(failures(outcomes) =~= seq![e]);
}

proof fn lemma_failures_one(o: Option<FlushError>)
    ensures
        failures(seq![o]) == match o {
            Some(e) => seq![e],
            None => Seq::<FlushError>::empty(),
        },
{
    assert(seq![o].drop_last() =~= Seq::<Option<FlushError>>::empty());
    assert(seq![o].last() == o);
    assert(failures(Seq::<Option<FlushError>>::empty()) == Seq::<FlushError>::empty());
    if let Some(e) = o {
        assert(Seq::<FlushError>::empty().push(e) =~= seq![e]);
    }
}

proof fn lemma_failures_none(outcomes: Seq<Option<FlushError>>)
    requires
        forall|j: int| 0 <= j < outcomes.len() ==> #[trigger] outcomes[j] is None,
    ensures
        failures(outcomes) == Seq::<FlushError>::empty(),
    decreases outcomes.len(),
{
    if outcomes.len() > 0 {
        lemma_failures_none(outcomes.drop_last());
    }
}

/// Every failing destination is reported, in the order the destinations
/// were tried: the number of failures reported is the number of
/// destinations that failed.
pub proof fn lemma_failures_counted(outcomes: Seq<Option<FlushError>>)
    ensures
        failures(outcomes).len() == outcomes.filter(|o: Option<FlushError>| o is Some).len(),
    decreases outcomes.len(),
{
    reveal(Seq::filter);
    if outcomes.len() > 0 {
        lemma_failures_counted(outcomes.drop_last());
    }
}

} // verus!

verus! {

/// Flushing an empty batch is a no-op: no destination is sent anything and
/// the cycle, having no failures, succeeds.
pub proof fn lemma_empty_flush_is_noop(
    remote: Option<RemoteDelivery>,
    file: Option<FileDelivery>,
    url: Seq<char>,
    min: Level,
    user_agent: Seq<char>,
    r: Result<(), FlushError>,
)
    ensures
        remote_planned(remote, url, min, user_agent, Seq::empty()) ==> remote is None,
        file_planned(file, min, Seq::empty()) ==> file is None,
        aggregated(failures(Seq::empty()), r) <==> r is Ok,
{
    assert(selected(Seq::<RecordView>::empty(), min).len() == 0);
}

} // verus!
