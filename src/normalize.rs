use vstd::prelude::*;
use crate::model::{
    DayEntry, DayData, TotalData, UsageData, cost_of, or_zero, day_of, zero_day, entry_cost, or_zero_exec,
};

verus! {

/// Number of trailing days kept in `recent` and summed into the weekly cost.
pub const RECENT_DAYS: usize = 7;

/// Number of leading characters of a date that name its year and month.
pub const MONTH_PREFIX_LEN: usize = 7;

/// `x`, capped at the largest `u64`.
pub open spec fn sat(x: int) -> int {
    if x > u64::MAX {
        u64::MAX as int
    } else {
        x
    }
}

/// The sum of `f` over `s`.
pub open spec fn sum_by<T>(s: Seq<T>, f: spec_fn(T) -> int) -> int
    decreases s.len(),
{
    if s.len() == 0 {
        0
    } else {
        sum_by(s.drop_last(), f) + f(s.last())
    }
}

pub open spec fn entry_cost_term() -> spec_fn(DayEntry) -> int {
    |e: DayEntry| cost_of(e) as int
}

pub open spec fn input_term() -> spec_fn(DayEntry) -> int {
    |e: DayEntry| or_zero(e.input_tokens) as int
}

pub open spec fn output_term() -> spec_fn(DayEntry) -> int {
    |e: DayEntry| or_zero(e.output_tokens) as int
}

pub open spec fn cache_creation_term() -> spec_fn(DayEntry) -> int {
    |e: DayEntry| or_zero(e.cache_creation_tokens) as int
}

pub open spec fn cache_read_term() -> spec_fn(DayEntry) -> int {
    |e: DayEntry| or_zero(e.cache_read_tokens) as int
}

pub open spec fn day_cost_term() -> spec_fn(DayData) -> int {
    |d: DayData| d.cost as int
}

/// `p` is a prefix of `s`.
pub open spec fn has_prefix(s: Seq<char>, p: Seq<char>) -> bool {
    p.len() <= s.len() && s.take(p.len() as int) == p
}

/// The year-month part of a date: its first seven characters, or all of it
/// when shorter.
pub open spec fn month_of(date: Seq<char>) -> Seq<char> {
    if date.len() < MONTH_PREFIX_LEN {
        date
    } else {
        date.take(MONTH_PREFIX_LEN as int)
    }
}

/// The cost of a day counted in month `m`: its cost when its date lies in
/// `m`, else nothing.
pub open spec fn month_term(m: Seq<char>) -> spec_fn(DayEntry) -> int {
    |e: DayEntry|
        if has_prefix(e.date@, m) {
            cost_of(e) as int
        } else {
            0
        }
}

/// Index of the first day at or after `i` dated `t`, or -1.
pub open spec fn first_on(s: Seq<DayEntry>, t: Seq<char>, i: int) -> int
    decreases s.len() - i,
{
    if i < 0 || i >= s.len() {
        -1
    } else if s[i].date@ == t {
        i
    } else {
        first_on(s, t, i + 1)
    }
}

/// Number of days kept in `recent` out of `n`.
pub open spec fn recent_len(n: int) -> int {
    if n < RECENT_DAYS {
        n
    } else {
        RECENT_DAYS as int
    }
}

pub open spec fn daily_mode() -> Seq<char> {
    seq!['d', 'a', 'i', 'l', 'y']
}

/// `r` is the snapshot that the days `s`, read on date `t` at time `lu`,
/// normalize to.
pub open spec fn normalized(s: Seq<DayEntry>, t: Seq<char>, lu: Seq<char>, r: UsageData) -> bool {
    let n = s.len() as int;
    let w = recent_len(n);
    let k = first_on(s, t, 0);
    &&& if k >= 0 {
        day_of(s[k], r.today)
    } else {
        zero_day(r.today, t) && r.today.wf()
    }
    &&& r.recent@.len() == w
    &&& forall|j: int| 0 <= j < w ==> day_of(s[n - w + j], #[trigger] r.recent@[j])
    &&& r.totals.total_cost == sat(sum_by(s, entry_cost_term()))
    &&& r.totals.cost == r.totals.total_cost
    &&& r.totals.weekly_cost == sat(sum_by(r.recent@, day_cost_term()))
    &&& r.totals.monthly_cost == sat(sum_by(s, month_term(month_of(t))))
    &&& r.totals.input_tokens == sat(sum_by(s, input_term()))
    &&& r.totals.output_tokens == sat(sum_by(s, output_term()))
    &&& r.totals.cache_creation_tokens == sat(sum_by(s, cache_creation_term()))
    &&& r.totals.cache_read_tokens == sat(sum_by(s, cache_read_term()))
    &&& r.session is None
    &&& r.error is None
    &&& r.mode@ == daily_mode()
    &&& r.last_updated@ == lu
}

proof fn lemma_sum_take<T>(s: Seq<T>, i: int, f: spec_fn(T) -> int)
    requires
        0 <= i < s.len(),
    ensures
        sum_by(s.take(i + 1), f) == sum_by(s.take(i), f) + f(s[i]),
{
    assert(s.take(i + 1).drop_last() =~= s.take(i));
}

proof fn lemma_sum_push<T>(s: Seq<T>, x: T, f: spec_fn(T) -> int)
    ensures
        sum_by(s.push(x), f) == sum_by(s, f) + f(x),
{
    assert(s.push(x).drop_last() =~= s);
}

/// `a + b`, capped at the largest `u64`.
pub fn sat_add(a: u64, b: u64) -> (r: u64)
    ensures
        r == sat(a + b),
{
    if a > u64::MAX - b {
        u64::MAX
    } else {
        a + b
    }
}

/// Whether `date` lies in the year-month of `today`.
pub fn in_month_of(date: &str, today: &str) -> (r: bool)
    ensures
        r == has_prefix(date@, month_of(today@)),
{
    let tl = today.unicode_len();
    let k = if tl < MONTH_PREFIX_LEN {
        tl
    } else {
        MONTH_PREFIX_LEN
    };
    let m = Ghost(month_of(today@));
    assert(m@.len() == k);
    assert(m@ =~= today@.take(k as int));
    if date.unicode_len() < k {
        return false;
    }
    let mut j: usize = 0;
    while j < k
        invariant
            j <= k,
            k == m@.len(),
            k <= date@.len(),
            k <= today@.len(),
            m@ == today@.take(k as int),
            m@ == month_of(today@),
            forall|i: int| 0 <= i < j ==> date@[i] == m@[i],
        decreases k - j,
    {
        if date.get_char(j) != today.get_char(j) {
            assert(date@.take(k as int)[j as int] != m@[j as int]);
            return false;
        }
        j = j + 1;
    }
    assert(date@.take(k as int) =~= m@);
    true
}

/// Index of the first day dated `today`, if any.
pub fn find_day(days: &Vec<DayEntry>, today: &str) -> (r: Option<usize>)
    ensures
        match r {
            Some(k) => k < days@.len() && first_on(days@, today@, 0) == k as int,
            None => first_on(days@, today@, 0) == -1,
        },
{
    let mut i: usize = 0;
    while i < days.len()
        invariant
            i <= days@.len(),
            first_on(days@, today@, 0) == first_on(days@, today@, i as int),
        decreases days@.len() - i,
    {
        if crate::settings::str_equals(days[i].date.as_str(), today) {
            return Some(i);
        }
        i = i + 1;
    }
    None
}

/// Sums over all known days: total cost, cost within the month of `today`,
/// and the four token counters, each capped at the largest `u64`.
fn sum_days(days: &Vec<DayEntry>, today: &str) -> (r: (u64, u64, u64, u64, u64, u64))
    ensures
        r.0 == sat(sum_by(days@, entry_cost_term())),
        r.1 == sat(sum_by(days@, month_term(month_of(today@)))),
        r.2 == sat(sum_by(days@, input_term())),
        r.3 == sat(sum_by(days@, output_term())),
        r.4 == sat(sum_by(days@, cache_creation_term())),
        r.5 == sat(sum_by(days@, cache_read_term())),
{
    let ghost s = days@;
    let ghost m = month_of(today@);
    let mut total: u64 = 0;
    let mut month: u64 = 0;
    let mut input: u64 = 0;
    let mut output: u64 = 0;
    let mut creation: u64 = 0;
    let mut read: u64 = 0;
    let mut i: usize = 0;
    while i < days.len()
        invariant
            s == days@,
            m == month_of(today@),
            i <= s.len(),
            total == sat(sum_by(s.take(i as int), entry_cost_term())),
            month == sat(sum_by(s.take(i as int), month_term(m))),
            input == sat(sum_by(s.take(i as int), input_term())),
            output == sat(sum_by(s.take(i as int), output_term())),
            creation == sat(sum_by(s.take(i as int), cache_creation_term())),
            read == sat(sum_by(s.take(i as int), cache_read_term())),
        decreases s.len() - i,
    {
        let e = &days[i];
        proof {
            lemma_sum_take(s, i as int, entry_cost_term());
            lemma_sum_take(s, i as int, month_term(m));
            lemma_sum_take(s, i as int, input_term());
            lemma_sum_take(s, i as int, output_term());
            lemma_sum_take(s, i as int, cache_creation_term());
            lemma_sum_take(s, i as int, cache_read_term());
        }
        let c = entry_cost(e);
        assert(month_term(m)(s[i as int]) == (if has_prefix(s[i as int].date@, m) {
            cost_of(s[i as int]) as int
        } else {
            0
        }));
        total = sat_add(total, c);
        if in_month_of(e.date.as_str(), today) {
            month = sat_add(month, c);
        }
        input = sat_add(input, or_zero_exec(e.input_tokens));
        output = sat_add(output, or_zero_exec(e.output_tokens));
        creation = sat_add(creation, or_zero_exec(e.cache_creation_tokens));
        read = sat_add(read, or_zero_exec(e.cache_read_tokens));
        i = i + 1;
    }
    assert(s.take(s.len() as int) =~= s);
    (total, month, input, output, creation, read)
}

/// The trailing window of at most seven days, normalized, with the sum of
/// their costs.
fn recent_days(days: &Vec<DayEntry>) -> (r: (Vec<DayData>, u64))
    ensures
        r.0@.len() == recent_len(days@.len() as int),
        forall|j: int|
            0 <= j < r.0@.len() ==> day_of(
                days@[days@.len() - r.0@.len() + j],
                #[trigger] r.0@[j],
            ),
        r.1 == sat(sum_by(r.0@, day_cost_term())),
{
    let n = days.len();
    let start = if n < RECENT_DAYS {
        0
    } else {
        n - RECENT_DAYS
    };
    let mut out: Vec<DayData> = Vec::new();
    let mut week: u64 = 0;
    let mut i: usize = start;
    while i < n
        invariant
            n == days@.len(),
            start <= i <= n,
            start == n - recent_len(n as int),
            out@.len() == i - start,
            forall|j: int|
                0 <= j < out@.len() ==> day_of(days@[start + j], #[trigger] out@[j]),
            week == sat(sum_by(out@, day_cost_term())),
        decreases n - i,
    {
        let d = DayData::from_entry(&days[i]);
        proof {
            lemma_sum_push(out@, d, day_cost_term());
        }
        week = sat_add(week, d.cost);
        out.push(d);
        i = i + 1;
    }
    (out, week)
}

/// Builds the snapshot for the days `days` as read on date `today`: `today`
/// is the first day with that date, or a zero day; `recent` is the last seven
/// days in order; totals sum all days, the weekly cost sums `recent`, the
/// monthly cost sums the days of `today`'s year-month.
pub fn normalize(days: &Vec<DayEntry>, today: &str, last_updated: String) -> (r: UsageData)
    ensures
        normalized(days@, today@, last_updated@, r),
{
    let today_day = match find_day(days, today) {
        Some(k) => DayData::from_entry(&days[k]),
        None => DayData::zero(today),
    };
    let (recent, week) = recent_days(days);
    let (total, month, input, output, creation, read) = sum_days(days, today);
    proof {
        reveal_strlit("daily");
        assert("daily"@ =~= daily_mode());
    }
    UsageData {
        today: today_day,
        session: None,
        recent,
        totals: TotalData {
            cost: total,
            total_cost: total,
            weekly_cost: week,
            monthly_cost: month,
            input_tokens: input,
            output_tokens: output,
            cache_creation_tokens: creation,
            cache_read_tokens: read,
        },
        last_updated,
        mode: String::from_str("daily"),
        error: None,
    }
}

} // verus!
