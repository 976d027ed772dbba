use vstd::prelude::*;
use vstd::string::StringSliceAdditionalSpecFns;
use crate::extract::{find_json_line, hard_failure, is_hard_failure, last_json_line, span_view};
use crate::model::{DayEntry, DayData, TotalData, UsageData, day_of, names_of, zero_day};
use crate::normalize::{
    daily_mode, normalize, normalized, sat, sum_by, day_cost_term, has_prefix, month_of,
    month_term, first_on,
};

verus! {

/// Longest excerpt of an unparsable data line kept for diagnostics, in
/// characters.
pub const EXCERPT_CHARS: usize = 500;

/// The decoded data line of the accounting tool, in either of the two shapes
/// it has shipped: a bare list of days, or an object whose `daily` key holds
/// that list.
#[derive(Debug, Clone)]
pub enum Payload {
    Bare(Vec<DayEntry>),
    Wrapped(Vec<DayEntry>),
}

impl Payload {
    /// The list of days, whichever the shape.
    pub open spec fn days(&self) -> Seq<DayEntry> {
        match self {
            Payload::Bare(v) => v@,
            Payload::Wrapped(v) => v@,
        }
    }

    /// The list of days, whichever the shape.
    pub fn day_list(&self) -> (r: &Vec<DayEntry>)
        ensures
            r@ == self.days(),
    {
        match self {
            Payload::Bare(v) => v,
            Payload::Wrapped(v) => v,
        }
    }
}

/// Ways a fetch can fail.
#[derive(Debug, Clone)]
pub enum FetchError {
    /// The command exited unsuccessfully with a genuine error; holds its
    /// error stream.
    ProcessFailed(String),
    /// No output line begins with `{`.
    NoJsonFound,
    /// The data line did not decode; holds the decoder's message and the
    /// start of the line.
    MalformedJson(String, String),
    /// A shared cell could not be locked; holds the cell's name and the
    /// reason.
    LockFailure(String, String),
}

/// The human-readable text of an error.
pub open spec fn message_of(e: FetchError) -> Seq<char> {
    match e {
        FetchError::ProcessFailed(s) => "Helper script failed: "@ + s@,
        FetchError::NoJsonFound => "No JSON found in output"@,
        FetchError::MalformedJson(d, x) => "JSON parsing error: "@ + d@ + " - JSON: "@ + x@,
        FetchError::LockFailure(c, s) => "Failed to lock "@ + c@ + " mutex: "@ + s@,
    }
}

impl FetchError {
    /// The human-readable text of this error.
    pub fn message(&self) -> (r: String)
        ensures
            r@ == message_of(*self),
    {
        match self {
            FetchError::ProcessFailed(s) => {
                let mut r = String::from_str("Helper script failed: ");
                r.append(s.as_str());
                r
            },
            FetchError::NoJsonFound => String::from_str("No JSON found in output"),
            FetchError::MalformedJson(d, x) => {
                let mut r = String::from_str("JSON parsing error: ");
                r.append(d.as_str());
                r.append(" - JSON: ");
                r.append(x.as_str());
                r
            },
            FetchError::LockFailure(c, s) => {
                let mut r = String::from_str("Failed to lock ");
                r.append(c.as_str());
                r.append(" mutex: ");
                r.append(s.as_str());
                r
            },
        }
    }

    /// A hard failure is reported to the caller; any other error degrades the
    /// snapshot instead.
    pub open spec fn is_hard(&self) -> bool {
        self is ProcessFailed || self is LockFailure
    }
}

/// The start of an unparsable line kept for diagnostics: at most
/// [`EXCERPT_CHARS`] characters.
pub fn excerpt(s: &str) -> (r: String)
    ensures
        r@ == (if s@.len() <= EXCERPT_CHARS {
            s@
        } else {
            s@.take(EXCERPT_CHARS as int)
        }),
{
    let n = s.unicode_len();
    if n <= EXCERPT_CHARS {
        String::from_str(s)
    } else {
        String::from_str(s.substring_char(0, EXCERPT_CHARS))
    }
}

/// `r` is the zeroed snapshot for date `t` at time `lu` that carries `msg`.
pub open spec fn degraded_snapshot(r: UsageData, t: Seq<char>, lu: Seq<char>, msg: Seq<char>) -> bool {
    &&& zero_day(r.today, t)
    &&& r.today.wf()
    &&& r.recent@.len() == 0
    &&& r.totals.cost == 0
    &&& r.totals.total_cost == 0
    &&& r.totals.weekly_cost == 0
    &&& r.totals.monthly_cost == 0
    &&& r.totals.input_tokens == 0
    &&& r.totals.output_tokens == 0
    &&& r.totals.cache_creation_tokens == 0
    &&& r.totals.cache_read_tokens == 0
    &&& r.session is None
    &&& r.mode@ == daily_mode()
    &&& r.last_updated@ == lu
    &&& r.error matches Some(m) && m@ == msg
}

/// A usable all-zero snapshot that carries the message of a failed fetch.
pub fn degraded(today: &str, last_updated: String, message: String) -> (r: UsageData)
    ensures
        degraded_snapshot(r, today@, last_updated@, message@),
{
    proof {
        reveal_strlit("daily");
        assert("daily"@ =~= daily_mode());
    }
    UsageData {
        today: DayData::zero(today),
        session: None,
        recent: Vec::new(),
        totals: TotalData::zero(),
        last_updated,
        mode: String::from_str("daily"),
        error: Some(message),
    }
}

/// `r` is what a run of the accounting command leads to: a hard failure, a
/// missing data line, or the byte range of the data line.
pub open spec fn located(
    success: bool,
    stdout: Seq<u8>,
    stderr: Seq<char>,
    stderr_bytes: Seq<u8>,
    r: Result<(usize, usize), FetchError>,
) -> bool {
    if hard_failure(success, stderr, stderr_bytes) {
        r matches Err(FetchError::ProcessFailed(_))
    } else {
        match last_json_line(stdout) {
            None => r matches Err(FetchError::NoJsonFound),
            Some(sp) => r matches Ok(p) && span_view(Some(p)) == Some(sp),
        }
    }
}

/// Reads a finished run of the accounting command: whether it exited
/// successfully, its standard output and its error stream. A hard failure
/// carries the error stream; otherwise the data line is the last output line
/// that begins with `{`, returned as a byte range of `stdout`.
pub fn locate_payload(success: bool, stdout: &[u8], stderr: &str) -> (r: Result<(usize, usize), FetchError>)
    ensures
        located(success, stdout@, stderr@, stderr.spec_bytes(), r),
        r matches Err(FetchError::ProcessFailed(m)) ==> m@ == stderr@,
        r matches Ok((a, b)) ==> a < b <= stdout@.len(),
{
    if is_hard_failure(success, stderr) {
        return Err(FetchError::ProcessFailed(String::from_str(stderr)));
    }
    match find_json_line(stdout) {
        None => Err(FetchError::NoJsonFound),
        Some(sp) => Ok(sp),
    }
}

/// `r` is the result of a fetch that ended in `outcome`, read on date `t` at
/// time `lu`: a decoded payload is normalized, a hard failure is passed on,
/// and any other error becomes a degraded snapshot carrying its message.
pub open spec fn settled(outcome: Result<Payload, FetchError>, t: Seq<char>, lu: Seq<char>, r: Result<UsageData, FetchError>) -> bool {
    match outcome {
        Ok(p) => r matches Ok(d) && normalized(p.days(), t, lu, d),
        Err(e) => if e.is_hard() {
            r == Err::<UsageData, FetchError>(e)
        } else {
            r matches Ok(d) && degraded_snapshot(d, t, lu, message_of(e))
        },
    }
}

/// Turns the outcome of a fetch into the snapshot to store, or the error to
/// report.
pub fn settle(outcome: Result<Payload, FetchError>, today: &str, last_updated: String) -> (r: Result<UsageData, FetchError>)
    ensures
        settled(outcome, today@, last_updated@, r),
{
    match outcome {
        Ok(p) => Ok(normalize(p.day_list(), today, last_updated)),
        Err(e) => match e {
            FetchError::ProcessFailed(_) | FetchError::LockFailure(_, _) => Err(e),
            _ => {
                let m = e.message();
                Ok(degraded(today, last_updated, m))
            },
        },
    }
}

/// Two days with the same date, figures, models and breakdown.
pub open spec fn same_day(a: DayData, b: DayData) -> bool {
    &&& a.date@ == b.date@
    &&& a.cost == b.cost
    &&& a.input_tokens == b.input_tokens
    &&& a.output_tokens == b.output_tokens
    &&& a.cache_creation_tokens == b.cache_creation_tokens
    &&& a.cache_read_tokens == b.cache_read_tokens
    &&& a.total_tokens == b.total_tokens
    &&& names_of(a.models_used@) == names_of(b.models_used@)
    &&& a.model_breakdowns@ == b.model_breakdowns@
    &&& pairs_of(a.models@) == pairs_of(b.models@)
}

/// The `models` pairs with names as text.
pub open spec fn pairs_of(m: Seq<(String, bool)>) -> Seq<(Seq<char>, bool)> {
    m.map_values(|p: (String, bool)| (p.0@, p.1))
}

proof fn lemma_same_source_same_day(e: DayEntry, a: DayData, b: DayData)
    requires
        day_of(e, a),
        day_of(e, b),
    ensures
        same_day(a, b),
{
    assert(a.models_used@.len() == names_of(a.models_used@).len());
    assert forall|i: int| 0 <= i < a.models@.len() implies pairs_of(a.models@)[i] == pairs_of(
        b.models@,
    )[i] by {
        assert(names_of(a.models_used@)[i] == names_of(b.models_used@)[i]);
    }
    assert(pairs_of(a.models@) =~= pairs_of(b.models@));
}

/// Two snapshots that agree on every field a consumer can read.
pub open spec fn same_snapshot(a: UsageData, b: UsageData) -> bool {
    &&& same_day(a.today, b.today)
    &&& a.recent@.len() == b.recent@.len()
    &&& forall|j: int| 0 <= j < a.recent@.len() ==> same_day(#[trigger] a.recent@[j], b.recent@[j])
    &&& a.totals == b.totals
    &&& a.session is None && b.session is None
    &&& a.error is None && b.error is None
    &&& a.mode@ == b.mode@
    &&& a.last_updated@ == b.last_updated@
}

proof fn lemma_same_costs_same_sum(p: Seq<DayData>, q: Seq<DayData>)
    requires
        p.len() == q.len(),
        forall|j: int| 0 <= j < p.len() ==> (#[trigger] p[j]).cost == q[j].cost,
    ensures
        sum_by(p, day_cost_term()) == sum_by(q, day_cost_term()),
    decreases p.len(),
{
    if p.len() > 0 {
        let (p2, q2) = (p.drop_last(), q.drop_last());
        assert forall|j: int| 0 <= j < p2.len() implies (#[trigger] p2[j]).cost == q2[j].cost by {
            assert(p2[j] == p[j] && q2[j] == q[j]);
        }
        lemma_same_costs_same_sum(p2, q2);
        assert(p[p.len() - 1].cost == q[q.len() - 1].cost);
    }
}

/// A bare list of days and an object holding the same list under `daily`
/// normalize to equivalent snapshots.
pub proof fn shape_invariance(
    a: Payload,
    b: Payload,
    t: Seq<char>,
    lu: Seq<char>,
    ra: Result<UsageData, FetchError>,
    rb: Result<UsageData, FetchError>,
)
    requires
        a is Bare,
        b is Wrapped,
        a->Bare_0@ == b->Wrapped_0@,
        settled(Ok::<Payload, FetchError>(a), t, lu, ra),
        settled(Ok::<Payload, FetchError>(b), t, lu, rb),
    ensures
        ra is Ok && rb is Ok,
        same_snapshot(ra->Ok_0, rb->Ok_0),
{
    let x = ra->Ok_0;
    let y = rb->Ok_0;
    let s = a.days();
    let n = s.len() as int;
    let w = x.recent@.len() as int;
    assert forall|j: int| 0 <= j < w implies same_day(#[trigger] x.recent@[j], y.recent@[j]) by {
        lemma_same_source_same_day(s[n - w + j], x.recent@[j], y.recent@[j]);
    }
    assert forall|j: int| 0 <= j < w implies (#[trigger] x.recent@[j]).cost == y.recent@[j].cost by {
        assert(same_day(x.recent@[j], y.recent@[j]));
    }
    lemma_same_costs_same_sum(x.recent@, y.recent@);
    if first_on(s, t, 0) < 0 {
        assert(names_of(x.today.models_used@) =~= names_of(y.today.models_used@));
        assert(pairs_of(x.today.models@) =~= pairs_of(y.today.models@));
    } else {
        lemma_same_source_same_day(s[first_on(s, t, 0)], x.today, y.today);
    }
}

/// Every snapshot a fetch yields repeats its total cost under both names.
pub proof fn cost_alias_holds(outcome: Result<Payload, FetchError>, t: Seq<char>, lu: Seq<char>, r: Result<UsageData, FetchError>)
    requires
        settled(outcome, t, lu, r),
        r is Ok,
    ensures
        r->Ok_0.totals.cost == r->Ok_0.totals.total_cost,
{
}

/// In every snapshot a fetch yields, the weekly cost is the sum of the costs
/// of the days in `recent`.
pub proof fn weekly_is_recent_sum(outcome: Result<Payload, FetchError>, t: Seq<char>, lu: Seq<char>, r: Result<UsageData, FetchError>)
    requires
        settled(outcome, t, lu, r),
        r is Ok,
    ensures
        r->Ok_0.totals.weekly_cost == sat(sum_by(r->Ok_0.recent@, day_cost_term())),
        sum_by(r->Ok_0.recent@, day_cost_term()) <= u64::MAX ==> r->Ok_0.totals.weekly_cost
            == sum_by(r->Ok_0.recent@, day_cost_term()),
        r->Ok_0.recent@.len() <= 7,
{
    if let Ok(p) = outcome {
    } else {
        let d = r->Ok_0;
        assert(d.recent@ =~= Seq::<DayData>::empty());
    }
}

/// A run whose output holds no data line, and that did not fail outright,
/// yields a usable snapshot that carries an error, costs nothing today and
/// has no recent days.
pub proof fn no_data_line_degrades(
    success: bool,
    stdout: Seq<u8>,
    stderr: Seq<char>,
    stderr_bytes: Seq<u8>,
    loc: Result<(usize, usize), FetchError>,
    t: Seq<char>,
    lu: Seq<char>,
    r: Result<UsageData, FetchError>,
)
    requires
        located(success, stdout, stderr, stderr_bytes, loc),
        !hard_failure(success, stderr, stderr_bytes),
        last_json_line(stdout) is None,
        settled(Err::<Payload, FetchError>(loc->Err_0), t, lu, r),
    ensures
        loc matches Err(FetchError::NoJsonFound),
        r matches Ok(d) && d.error is Some && d.today.cost == 0 && d.recent@.len() == 0,
{
}

/// Every day in a snapshot that a fetch yields is well formed: its `models`
/// pairs mirror its `models_used` list.
pub proof fn snapshot_days_well_formed(outcome: Result<Payload, FetchError>, t: Seq<char>, lu: Seq<char>, r: Result<UsageData, FetchError>)
    requires
        settled(outcome, t, lu, r),
        r is Ok,
    ensures
        r->Ok_0.today.wf(),
        forall|j: int| 0 <= j < r->Ok_0.recent@.len() ==> (#[trigger] r->Ok_0.recent@[j]).wf(),
{
    if let Ok(p) = outcome {
        let d = r->Ok_0;
        let s = p.days();
        let n = s.len() as int;
        let w = d.recent@.len() as int;
        assert forall|j: int| 0 <= j < w implies (#[trigger] d.recent@[j]).wf() by {
            assert(day_of(s[n - w + j], d.recent@[j]));
        }
    }
}

proof fn lemma_sum_of_zeros(s: Seq<DayEntry>, m: Seq<char>)
    requires
        forall|i: int| 0 <= i < s.len() ==> !has_prefix(#[trigger] s[i].date@, m),
    ensures
        sum_by(s, month_term(m)) == 0,
    decreases s.len(),
{
    if s.len() > 0 {
        let t = s.drop_last();
        assert forall|i: int| 0 <= i < t.len() implies !has_prefix(#[trigger] t[i].date@, m) by {
            assert(t[i] == s[i]);
        }
        lemma_sum_of_zeros(t, m);
        assert(!has_prefix(s[s.len() - 1].date@, m));
    }
}

/// The monthly cost is the sum of the costs of the days whose date shares
/// the year-month of today's date, exactly so where that sum fits a `u64`.
pub proof fn monthly_is_month_sum(s: Seq<DayEntry>, t: Seq<char>, lu: Seq<char>, r: UsageData)
    requires
        normalized(s, t, lu, r),
    ensures
        r.totals.monthly_cost == sat(sum_by(s, month_term(month_of(t)))),
        sum_by(s, month_term(month_of(t))) <= u64::MAX ==> r.totals.monthly_cost == sum_by(
            s,
            month_term(month_of(t)),
        ),
{
}

/// The monthly cost is zero when no day lies in the month of today's date.
pub proof fn monthly_without_days_is_zero(s: Seq<DayEntry>, t: Seq<char>, lu: Seq<char>, r: UsageData)
    requires
        normalized(s, t, lu, r),
        forall|i: int| 0 <= i < s.len() ==> !has_prefix(#[trigger] s[i].date@, month_of(t)),
    ensures
        r.totals.monthly_cost == 0,
{
    lemma_sum_of_zeros(s, month_of(t));
}

} // verus!
