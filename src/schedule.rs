//! The persisted wake schedule and the decisions that build it.
use crate::timestamp::{
    is_before, lemma_next_wake_in_window, clock_label, compute_next_wake, is_last_date, iso_text, next_wake_spec, two_digits,
    LocalDateTime,
};
use vstd::prelude::*;

verus! {

pub open spec fn opt_text(o: Option<String>) -> Option<Seq<char>> {
    match o {
        Some(s) => Some(s@),
        None => None,
    }
}

/// The record that the helper daemon reads.
#[derive(Clone, Debug, PartialEq, Eq)]
pub struct WakeSchedule {
    /// The next moment to wake the machine, as `YYYY-MM-DDTHH:MM:SS` local time.
    pub next_wake: Option<String>,
    pub enabled: bool,
    /// The recurring alarm time as `HH:MM`, for display.
    pub alarm_time: Option<String>,
    pub label: Option<String>,
}

pub struct WakeScheduleView {
    pub next_wake: Option<Seq<char>>,
    pub enabled: bool,
    pub alarm_time: Option<Seq<char>>,
    pub label: Option<Seq<char>>,
}

impl WakeScheduleView {
    /// A concrete wake is both enabled and has a moment.
    pub open spec fn armed(self) -> bool {
        self.enabled && self.next_wake is Some
    }

    /// What a writer stores: the flag agrees with the presence of a moment.
    pub open spec fn consistent(self) -> bool {
        self.enabled == self.next_wake is Some
    }
}

impl View for WakeSchedule {
    type V = WakeScheduleView;

    open spec fn view(&self) -> WakeScheduleView {
        WakeScheduleView {
            next_wake: opt_text(self.next_wake),
            enabled: self.enabled,
            alarm_time: opt_text(self.alarm_time),
            label: opt_text(self.label),
        }
    }
}

/// The record written for a requested update.
pub open spec fn requested_schedule(
    next_wake: Option<Seq<char>>,
    alarm_time: Option<Seq<char>>,
    label: Option<Seq<char>>,
) -> WakeScheduleView {
    WakeScheduleView { next_wake, enabled: next_wake is Some, alarm_time, label }
}

pub open spec fn update_message_text(next_wake: Option<Seq<char>>) -> Seq<char> {
    match next_wake {
        Some(w) => "Wake-Schedule aktualisiert: "@ + w,
        None => "Wake-Schedule deaktiviert"@,
    }
}

/// The record planned for a wake at `hour:minute` after `now`: armed, at the next such
/// moment, labelled with the time of day.
pub open spec fn planned_schedule(hour: u8, minute: u8, now: LocalDateTime) -> WakeScheduleView {
    WakeScheduleView {
        next_wake: Some(iso_text(next_wake_spec(hour, minute, now))),
        enabled: true,
        alarm_time: Some(clock_label(hour as int, minute as int)),
        label: None,
    }
}

pub open spec fn planned_message_text(wake: Seq<char>) -> Seq<char> {
    "Aufwachen geplant für "@ + wake
}

pub fn clone_text(o: &Option<String>) -> (r: Option<String>)
    ensures
        opt_text(r) == opt_text(*o),
{
    match o {
        Some(s) => Some(s.clone()),
        None => None,
    }
}

/// Appends `n` in two zero-padded decimal digits.
fn push_two_digits(s: &mut String, n: u32)
    requires
        n < 100,
    ensures
        final(s)@ == old(s)@ + two_digits(n as int),
{
    let digits = "0123456789";
    proof {
        reveal_strlit("0123456789");
    }
    let tens = (n / 10) as usize;
    let ones = (n % 10) as usize;
    s.append(digits.substring_char(tens, tens + 1));
    s.append(digits.substring_char(ones, ones + 1));
    assert(final(s)@ =~= old(s)@ + two_digits(n as int));
}

/// `HH:MM` for a time of day.
pub fn alarm_label(hour: u8, minute: u8) -> (r: String)
    requires
        hour < 100,
        minute < 100,
    ensures
        r@ == clock_label(hour as int, minute as int),
{
    let mut s = String::new();
    push_two_digits(&mut s, hour as u32);
    proof {
        reveal_strlit(":");
    }
    s.append(":");
    push_two_digits(&mut s, minute as u32);
    assert(s@ =~= clock_label(hour as int, minute as int));
    s
}

impl WakeSchedule {
    /// The whole record written for an update: enabled exactly when a moment is given.
    pub fn from_request(
        next_wake: Option<String>,
        alarm_time: Option<String>,
        label: Option<String>,
    ) -> (r: WakeSchedule)
        ensures
            r@ == requested_schedule(opt_text(next_wake), opt_text(alarm_time), opt_text(label)),
            r@.consistent(),
    {
        let enabled = next_wake.is_some();
        WakeSchedule { next_wake, enabled, alarm_time, label }
    }

    /// Whether the record asks for a concrete wake.
    pub fn is_armed(&self) -> (r: bool)
        ensures
            r == self@.armed(),
    {
        self.enabled && self.next_wake.is_some()
    }

    /// The wake moment, only when the record is armed.
    pub fn armed_wake(&self) -> (r: Option<String>)
        ensures
            opt_text(r) == (if self@.armed() {
                self@.next_wake
            } else {
                None
            }),
    {
        if self.is_armed() {
            clone_text(&self.next_wake)
        } else {
            None
        }
    }

    /// The confirmation for a written update: the moment set, or that the schedule is off.
    pub fn update_message(&self) -> (r: String)
        ensures
            r@ == update_message_text(self@.next_wake),
    {
        match &self.next_wake {
            Some(w) => {
                let mut s = String::from_str("Wake-Schedule aktualisiert: ");
                s.append(w.as_str());
                s
            },
            None => String::from_str("Wake-Schedule deaktiviert"),
        }
    }

    /// The record for a wake at `hour:minute`, the next time that the clock shows it after
    /// `now`.
    pub fn plan_wake(hour: u8, minute: u8, now: LocalDateTime) -> (r: WakeSchedule)
        requires
            hour < 24,
            minute < 60,
            now.wf(),
            !is_last_date(now.year as int, now.month as int, now.day as int),
        ensures
            r@ == planned_schedule(hour, minute, now),
    {
        let wake = compute_next_wake(hour, minute, now);
        let text = wake.to_iso_string();
        WakeSchedule {
            next_wake: Some(text),
            enabled: true,
            alarm_time: Some(alarm_label(hour, minute)),
            label: None,
        }
    }

    /// The record for a wake at `hour:minute` after `now`; none for a time of day that
    /// does not exist, or on the last representable date, which has no day after it.
    pub fn plan_wake_at(hour: u8, minute: u8, now: LocalDateTime) -> (r: Option<WakeSchedule>)
        requires
            now.wf(),
        ensures
            (r is None) == (hour >= 24 || minute >= 60 || is_last_date(
                now.year as int,
                now.month as int,
                now.day as int,
            )),
            r matches Some(s) ==> s@ == planned_schedule(hour, minute, now),
    {
        if hour >= 24 || minute >= 60 || now.is_last_date() {
            None
        } else {
            Some(WakeSchedule::plan_wake(hour, minute, now))
        }
    }

    /// The record for a wake at `hour:minute` after the current local time; none for a
    /// time of day that does not exist, before the clock is read.
    pub fn plan_wake_now(hour: u8, minute: u8) -> (r: Option<WakeSchedule>)
        ensures
            hour >= 24 || minute >= 60 ==> r is None,
            r matches Some(s) ==> exists|now: LocalDateTime|
                now.wf() && !is_last_date(now.year as int, now.month as int, now.day as int)
                    && s@ == #[trigger] planned_schedule(hour, minute, now),
    {
        if hour >= 24 || minute >= 60 {
            return None;
        }
        let now = LocalDateTime::now();
        WakeSchedule::plan_wake_at(hour, minute, now)
    }

    /// The confirmation for a planned wake.
    pub fn planned_message(&self) -> (r: String)
        ensures
            r@ == planned_message_text(
                match self@.next_wake {
                    Some(w) => w,
                    None => Seq::<char>::empty(),
                },
            ),
    {
        let mut s = String::from_str("Aufwachen geplant für ");
        match &self.next_wake {
            Some(w) => s.append(w.as_str()),
            None => {},
        }
        assert(self@.next_wake is None ==> s@ =~= planned_message_text(Seq::<char>::empty()));
        s
    }
}

/// An update asking for no wake writes a record that is not armed, whatever the rest.
pub proof fn lemma_cleared_not_armed(alarm_time: Option<Seq<char>>, label: Option<Seq<char>>)
    ensures
        !requested_schedule(None, alarm_time, label).armed(),
{
}

/// A record is armed only when it is enabled and holds a moment: disabled records and
/// enabled records without a moment never count as scheduled.
pub proof fn lemma_armed_needs_both(s: WakeScheduleView)
    ensures
        !s.enabled ==> !s.armed(),
        s.next_wake is None ==> !s.armed(),
        s.armed() == (s.enabled && s.next_wake is Some),
{
}

/// A planned wake is written as the ISO text of a moment strictly after `now` that reads
/// `hour:minute:00` and falls on `now`'s date or the day after.
pub proof fn lemma_planned_wake_in_window(hour: u8, minute: u8, now: LocalDateTime)
    requires
        hour < 24,
        minute < 60,
        now.wf(),
        !is_last_date(now.year as int, now.month as int, now.day as int),
    ensures
        exists|w: LocalDateTime|
            {
                &&& w.wf()
                &&& is_before(now, w)
                &&& w.hour == hour as u32 && w.minute == minute as u32 && w.second == 0
                &&& w.same_date(now) || w.is_next_date_of(now)
                &&& #[trigger] planned_schedule(hour, minute, now).next_wake == Some(iso_text(w))
            },
{
    lemma_next_wake_in_window(hour, minute, now);
    let w = next_wake_spec(hour, minute, now);
    assert(planned_schedule(hour, minute, now).next_wake == Some(iso_text(w)));
}

} // verus!
