use vstd::prelude::*;
use crate::fetch::{FetchError, message_of};
use crate::model::UsageData;
use crate::settings::{AppSettings, interval_of};

verus! {

/// What the poller does once a fetch has returned: the snapshot to store
/// and announce, if any, the line to log, if any, and how long to sleep
/// before the next cycle.
#[derive(Debug, Clone)]
pub struct CycleEnd {
    pub store: Option<UsageData>,
    pub log: Option<String>,
    pub sleep_secs: u64,
}

/// Ends a poll cycle whose interval was read, from the settings, before the
/// fetch. A snapshot, degraded or not, is stored and announced; an error is
/// logged and the loop goes on at the same interval.
pub fn end_cycle(interval_secs: u64, result: Result<UsageData, FetchError>) -> (r: CycleEnd)
    ensures
        r.sleep_secs == interval_secs,
        match result {
            Ok(d) => r.store == Some(d) && r.log is None,
            Err(e) => r.store is None && (r.log matches Some(m) && m@
                == "Failed to fetch usage data: "@ + message_of(e)),
        },
{
    match result {
        Ok(d) => CycleEnd { store: Some(d), log: None, sleep_secs: interval_secs },
        Err(e) => {
            let mut m = String::from_str("Failed to fetch usage data: ");
            let t = e.message();
            m.append(t.as_str());
            CycleEnd { store: None, log: Some(m), sleep_secs: interval_secs }
        },
    }
}

/// Replaces the settings wholesale. The running poller is left as it is: it
/// reads the settings afresh at the start of each cycle.
pub fn replace_settings(current: &mut AppSettings, new_settings: AppSettings)
    ensures
        *final(current) == new_settings,
{
    *current = new_settings;
}

/// After the settings are replaced, the next cycle sleeps for the interval
/// of the new frequency; a change to one minute makes it sixty seconds.
pub proof fn update_sets_next_interval(before: AppSettings, new_settings: AppSettings, after: AppSettings)
    requires
        after == new_settings,
    ensures
        interval_of(after.polling_frequency@) == interval_of(new_settings.polling_frequency@),
        new_settings.polling_frequency@ == "1min"@ ==> interval_of(after.polling_frequency@) == 60,
{
    if new_settings.polling_frequency@ == "1min"@ {
        reveal_strlit("1min");
        assert("1min"@ =~= seq!['1', 'm', 'i', 'n']);
    }
}

/// The reply to an explicit request for fresh usage: the snapshot, or the
/// error's message behind a fixed prefix.
pub fn usage_reply(result: Result<UsageData, FetchError>) -> (r: Result<UsageData, String>)
    ensures
        match result {
            Ok(d) => r == Ok::<UsageData, String>(d),
            Err(e) => r matches Err(m) && m@ == "Failed to get usage data: "@ + message_of(e),
        },
{
    match result {
        Ok(d) => Ok(d),
        Err(e) => {
            let mut m = String::from_str("Failed to get usage data: ");
            let t = e.message();
            m.append(t.as_str());
            Err(m)
        },
    }
}

} // verus!
