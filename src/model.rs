use vstd::prelude::*;

verus! {

/// One day as the accounting tool reports it, before normalization. Costs are
/// in millionths of a currency unit; a missing counter is `None`.
/// `model_breakdowns` is the tool's per-model breakdown, kept as JSON text.
#[derive(Debug, Clone)]
pub struct DayEntry {
    pub date: String,
    pub total_cost: Option<u64>,
    pub cost: Option<u64>,
    pub input_tokens: Option<u64>,
    pub output_tokens: Option<u64>,
    pub cache_creation_tokens: Option<u64>,
    pub cache_read_tokens: Option<u64>,
    pub total_tokens: Option<u64>,
    pub models_used: Vec<String>,
    pub model_breakdowns: String,
}

/// One normalized day. `models` has one `(name, true)` pair for each entry of
/// `models_used`, so consumers may look a model up by name.
#[derive(Debug, Clone)]
pub struct DayData {
    pub date: String,
    pub cost: u64,
    pub input_tokens: u64,
    pub output_tokens: u64,
    pub cache_creation_tokens: u64,
    pub cache_read_tokens: u64,
    pub total_tokens: u64,
    pub models_used: Vec<String>,
    pub model_breakdowns: String,
    pub models: Vec<(String, bool)>,
}

/// A running session; the daily fetch path never produces one.
#[derive(Debug, Clone)]
pub struct SessionData {
    pub id: Option<String>,
    pub cost: u64,
    pub is_active: bool,
    pub start_time: Option<String>,
    pub end_time: Option<String>,
}

/// Sums over the known days. `cost` repeats `total_cost` for consumers that
/// read the shorter name.
#[derive(Debug, Clone)]
pub struct TotalData {
    pub cost: u64,
    pub total_cost: u64,
    pub weekly_cost: u64,
    pub monthly_cost: u64,
    pub input_tokens: u64,
    pub output_tokens: u64,
    pub cache_creation_tokens: u64,
    pub cache_read_tokens: u64,
}

/// One snapshot of usage, replaced as a whole on every fetch. `error` is set
/// only on a degraded snapshot, whose figures are all zero.
#[derive(Debug, Clone)]
pub struct UsageData {
    pub today: DayData,
    pub session: Option<SessionData>,
    pub recent: Vec<DayData>,
    pub totals: TotalData,
    pub last_updated: String,
    pub mode: String,
    pub error: Option<String>,
}

/// The text of a model list.
pub open spec fn names_of(v: Seq<String>) -> Seq<Seq<char>> {
    v.map_values(|s: String| s@)
}

impl DayData {
    /// `models` mirrors `models_used` pair by pair, each flag set.
    pub open spec fn wf(&self) -> bool {
        &&& self.models@.len() == self.models_used@.len()
        &&& forall|i: int|
            0 <= i < self.models@.len() ==> (#[trigger] self.models@[i]).0@
                == self.models_used@[i]@ && self.models@[i].1
    }

    /// The `models` pairs read as a map from model name to flag.
    pub open spec fn models_map(&self) -> Map<Seq<char>, bool> {
        Map::new(
            |k: Seq<char>| exists|i: int| 0 <= i < self.models@.len() && (#[trigger] self.models@[i]).0@ == k,
            |k: Seq<char>|
                self.models@[choose|i: int| 0 <= i < self.models@.len() && (#[trigger] self.models@[i]).0@ == k].1,
        )
    }
}

/// The set of model names that a day lists as used.
pub open spec fn used_set(d: DayData) -> Set<Seq<char>> {
    names_of(d.models_used@).to_set()
}

/// For every well-formed day, the keys of `models` are exactly the names in
/// `models_used`, and each maps to `true`.
pub proof fn models_match_used(d: DayData)
    requires
        d.wf(),
    ensures
        d.models_map().dom() == used_set(d),
        forall|k: Seq<char>| d.models_map().dom().contains(k) ==> d.models_map()[k],
{
    let m = d.models_map();
    assert forall|k: Seq<char>| m.dom().contains(k) <==> used_set(d).contains(k) by {
        if m.dom().contains(k) {
            let i = choose|i: int| 0 <= i < d.models@.len() && (#[trigger] d.models@[i]).0@ == k;
            assert(names_of(d.models_used@)[i] == k);
        }
        if used_set(d).contains(k) {
            let i = choose|i: int|
                0 <= i < names_of(d.models_used@).len() && names_of(d.models_used@)[i] == k;
            assert(d.models@[i].0@ == k);
        }
    }
    assert(m.dom() =~= used_set(d));
}

/// The cost of an upstream day: its `total_cost` if present, else its
/// `cost`, else zero.
pub open spec fn cost_of(e: DayEntry) -> u64 {
    match e.total_cost {
        Some(c) => c,
        None => match e.cost {
            Some(c) => c,
            None => 0,
        },
    }
}

pub open spec fn or_zero(o: Option<u64>) -> u64 {
    match o {
        Some(v) => v,
        None => 0,
    }
}

/// `d` is the normalized form of the upstream day `e`.
pub open spec fn day_of(e: DayEntry, d: DayData) -> bool {
    &&& d.date@ == e.date@
    &&& d.cost == cost_of(e)
    &&& d.input_tokens == or_zero(e.input_tokens)
    &&& d.output_tokens == or_zero(e.output_tokens)
    &&& d.cache_creation_tokens == or_zero(e.cache_creation_tokens)
    &&& d.cache_read_tokens == or_zero(e.cache_read_tokens)
    &&& d.total_tokens == or_zero(e.total_tokens)
    &&& names_of(d.models_used@) == names_of(e.models_used@)
    &&& d.model_breakdowns@ == e.model_breakdowns@
    &&& d.wf()
}

/// `d` is the all-zero day dated `date`, with no models.
pub open spec fn zero_day(d: DayData, date: Seq<char>) -> bool {
    &&& d.date@ == date
    &&& d.cost == 0
    &&& d.input_tokens == 0
    &&& d.output_tokens == 0
    &&& d.cache_creation_tokens == 0
    &&& d.cache_read_tokens == 0
    &&& d.total_tokens == 0
    &&& d.models_used@.len() == 0
    &&& d.models@.len() == 0
    &&& d.model_breakdowns@ == seq!['[', ']']
}

pub(crate) fn or_zero_exec(o: Option<u64>) -> (r: u64)
    ensures
        r == or_zero(o),
{
    match o {
        Some(v) => v,
        None => 0,
    }
}

/// The cost of an upstream day: `total_cost` first, then `cost`, then zero.
pub fn entry_cost(e: &DayEntry) -> (r: u64)
    ensures
        r == cost_of(*e),
{
    match e.total_cost {
        Some(c) => c,
        None => match e.cost {
            Some(c) => c,
            None => 0,
        },
    }
}

/// Copies a list of model names.
fn copy_names(v: &Vec<String>) -> (r: Vec<String>)
    ensures
        r@ == v@,
{
    let mut r: Vec<String> = Vec::new();
    let mut i: usize = 0;
    while i < v.len()
        invariant
            i <= v@.len(),
            r@ == v@.subrange(0, i as int),
        decreases v@.len() - i,
    {
        r.push(v[i].clone());
        i = i + 1;
    }
    assert(r@ =~= v@);
    r
}

/// The lookup pairs for a list of model names: each name flagged `true`.
pub fn models_from(used: &Vec<String>) -> (r: Vec<(String, bool)>)
    ensures
        r@.len() == used@.len(),
        forall|i: int| 0 <= i < r@.len() ==> (#[trigger] r@[i]).0@ == used@[i]@ && r@[i].1,
{
    let mut r: Vec<(String, bool)> = Vec::new();
    let mut i: usize = 0;
    while i < used.len()
        invariant
            i <= used@.len(),
            r@.len() == i,
            forall|j: int| 0 <= j < i ==> (#[trigger] r@[j]).0@ == used@[j]@ && r@[j].1,
        decreases used@.len() - i,
    {
        r.push((used[i].clone(), true));
        i = i + 1;
    }
    r
}

impl DayData {
    /// The normalized form of an upstream day: its cost picked as
    /// [`entry_cost`] does, missing counters read as zero, and `models`
    /// built from `models_used`.
    pub fn from_entry(e: &DayEntry) -> (r: DayData)
        ensures
            day_of(*e, r),
    {
        let used = copy_names(&e.models_used);
        let models = models_from(&used);
        DayData {
            date: e.date.clone(),
            cost: entry_cost(e),
            input_tokens: or_zero_exec(e.input_tokens),
            output_tokens: or_zero_exec(e.output_tokens),
            cache_creation_tokens: or_zero_exec(e.cache_creation_tokens),
            cache_read_tokens: or_zero_exec(e.cache_read_tokens),
            total_tokens: or_zero_exec(e.total_tokens),
            models_used: used,
            model_breakdowns: e.model_breakdowns.clone(),
            models,
        }
    }

    /// A day with nothing recorded.
    pub fn zero(date: &str) -> (r: DayData)
        ensures
            zero_day(r, date@),
            r.wf(),
    {
        proof {
            reveal_strlit("[]");
            assert("[]"@ =~= seq!['[', ']']);
        }
        DayData {
            date: String::from_str(date),
            cost: 0,
            input_tokens: 0,
            output_tokens: 0,
            cache_creation_tokens: 0,
            cache_read_tokens: 0,
            total_tokens: 0,
            models_used: Vec::new(),
            model_breakdowns: String::from_str("[]"),
            models: Vec::new(),
        }
    }
}

impl TotalData {
    /// Totals with every figure zero.
    pub fn zero() -> (r: TotalData)
        ensures
            r.cost == 0 && r.total_cost == 0 && r.weekly_cost == 0 && r.monthly_cost == 0,
            r.input_tokens == 0 && r.output_tokens == 0,
            r.cache_creation_tokens == 0 && r.cache_read_tokens == 0,
    {
        TotalData {
            cost: 0,
            total_cost: 0,
            weekly_cost: 0,
            monthly_cost: 0,
            input_tokens: 0,
            output_tokens: 0,
            cache_creation_tokens: 0,
            cache_read_tokens: 0,
        }
    }
}

} // verus!
