use vstd::prelude::*;

verus! {

/// Seconds between two polls when the frequency label is not recognised.
pub const DEFAULT_INTERVAL_SECS: u64 = 300;

/// The interval, in seconds, that a polling-frequency label stands for.
pub open spec fn interval_of(label: Seq<char>) -> u64 {
    if label == seq!['1', 'm', 'i', 'n'] {
        60
    } else if label == seq!['5', 'm', 'i', 'n'] {
        300
    } else if label == seq!['1', '0', 'm', 'i', 'n'] {
        600
    } else {
        DEFAULT_INTERVAL_SECS
    }
}

/// Whether the text of `s` is exactly `lit`.
pub fn str_equals(s: &str, lit: &str) -> (r: bool)
    ensures
        r == (s@ == lit@),
{
    let n = s.unicode_len();
    if n != lit.unicode_len() {
        return false;
    }
    let mut i: usize = 0;
    while i < n
        invariant
            n == s@.len(),
            n == lit@.len(),
            i <= n,
            forall|j: int| 0 <= j < i ==> s@[j] == lit@[j],
        decreases n - i,
    {
        if s.get_char(i) != lit.get_char(i) {
            return false;
        }
        i = i + 1;
    }
    assert(s@ =~= lit@);
    true
}

/// User-adjustable settings of the monitor. They live in memory only and are
/// replaced as a whole on every update.
#[derive(Debug)]
pub struct AppSettings {
    pub polling_frequency: String,
    pub auto_start: bool,
}

impl Clone for AppSettings {
    fn clone(&self) -> (r: Self)
        ensures
            r == *self,
    {
        AppSettings { polling_frequency: self.polling_frequency.clone(), auto_start: self.auto_start }
    }
}

impl Default for AppSettings {
    /// Five-minute polling, started automatically.
    fn default() -> (r: Self)
        ensures
            r.polling_frequency@ == seq!['5', 'm', 'i', 'n'],
            r.auto_start,
    {
        proof {
            reveal_strlit("5min");
            assert("5min"@ =~= seq!['5', 'm', 'i', 'n']);
        }
        AppSettings { polling_frequency: String::from_str("5min"), auto_start: true }
    }
}

impl AppSettings {
    /// Seconds the poller sleeps after a cycle run under these settings.
    /// Unknown labels are tolerated and read as five minutes.
    pub fn interval_secs(&self) -> (r: u64)
        ensures
            r == interval_of(self.polling_frequency@),
    {
        let f = self.polling_frequency.as_str();
        proof {
            reveal_strlit("1min");
            reveal_strlit("5min");
            reveal_strlit("10min");
            assert("1min"@ =~= seq!['1', 'm', 'i', 'n']);
            assert("5min"@ =~= seq!['5', 'm', 'i', 'n']);
            assert("10min"@ =~= seq!['1', '0', 'm', 'i', 'n']);
        }
        if str_equals(f, "1min") {
            60
        } else if str_equals(f, "5min") {
            300
        } else if str_equals(f, "10min") {
            600
        } else {
            DEFAULT_INTERVAL_SECS
        }
    }
}

} // verus!
