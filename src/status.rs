//! The helper's status snapshot, composed from what was observed on disk and in launchd.
use crate::paths::HELPER_SERVICE_ID;
use crate::schedule::{opt_text, WakeSchedule};
use crate::text::{contains_text, has_substring, log_tail, tail_text};
use vstd::prelude::*;

verus! {

/// What the application shows of the helper: installation, registration, the armed
/// wake and the end of the daemon's log.
#[derive(Clone, Debug, PartialEq, Eq)]
pub struct HelperStatus {
    pub installed: bool,
    pub daemon_loaded: bool,
    pub has_schedule: bool,
    pub next_wake: Option<String>,
    pub log_tail: Option<String>,
}

/// The helper counts as installed when both its binary and its service descriptor exist.
pub open spec fn installed_spec(binary_present: bool, descriptor_present: bool) -> bool {
    binary_present && descriptor_present
}

/// launchd's listing names the daemon's identifier.
pub open spec fn listed_spec(listing: Seq<char>) -> bool {
    has_substring(listing, HELPER_SERVICE_ID@)
}

/// Whether the helper is installed.
pub fn is_installed(binary_present: bool, descriptor_present: bool) -> (r: bool)
    ensures
        r == installed_spec(binary_present, descriptor_present),
{
    binary_present && descriptor_present
}

/// Whether launchd's service listing names the daemon.
pub fn daemon_listed(listing: &str) -> (r: bool)
    ensures
        r == listed_spec(listing@),
{
    contains_text(listing, HELPER_SERVICE_ID)
}

impl HelperStatus {
    /// The snapshot for what was observed. An absent listing, schedule or log (not
    /// there, unreadable, malformed) counts as no registration, no schedule, no log.
    pub fn compose(
        binary_present: bool,
        descriptor_present: bool,
        service_listing: Option<String>,
        schedule: Option<WakeSchedule>,
        log_content: Option<String>,
    ) -> (r: HelperStatus)
        ensures
            r.installed == installed_spec(binary_present, descriptor_present),
            r.daemon_loaded == (service_listing matches Some(l) && listed_spec(l@)),
            r.has_schedule == (schedule matches Some(s) && s@.armed()),
            opt_text(r.next_wake) == (match schedule {
                Some(s) => if s@.armed() {
                    s@.next_wake
                } else {
                    None
                },
                None => None,
            }),
            opt_text(r.log_tail) == (match log_content {
                Some(c) => Some(tail_text(c@)),
                None => None,
            }),
    {
        let installed = is_installed(binary_present, descriptor_present);
        let daemon_loaded = match &service_listing {
            Some(l) => daemon_listed(l.as_str()),
            None => false,
        };
        let (has_schedule, next_wake) = match &schedule {
            Some(s) => (s.is_armed(), s.armed_wake()),
            None => (false, None),
        };
        let log_tail = match &log_content {
            Some(c) => Some(log_tail(c.as_str())),
            None => None,
        };
        HelperStatus { installed, daemon_loaded, has_schedule, next_wake, log_tail }
    }

    /// The snapshot where the helper mechanism does not exist.
    pub fn unavailable() -> (r: HelperStatus)
        ensures
            !r.installed && !r.daemon_loaded && !r.has_schedule,
            r.next_wake is None && r.log_tail is None,
    {
        HelperStatus {
            installed: false,
            daemon_loaded: false,
            has_schedule: false,
            next_wake: None,
            log_tail: None,
        }
    }
}

} // verus!
