use vstd::prelude::*;

use jiff::civil::Time;

use crate::locale::Locale;
use crate::mode::Mode;
use crate::schedule::{day_at, day_flags, draft_rule, flagged_days, flags_give_back_ordered_days, in_week_order, no_day_message, no_time_message, Rule, RuleView, Schedule, ScheduleView, Weekday};

verus! {

/// The time of day `hour:minute` that jiff's `Time::new` makes, seconds zero.
pub uninterp spec fn clock_at(hour: i8, minute: i8) -> Time;

/// `Time::new` with no seconds: the time of day `hour:minute`. jiff documents
/// that it fails exactly when a value is out of range (the hour from 0 to 23,
/// the minute from 0 to 59); that is stated, and the time made is named. The
/// error is converted to its message.
#[verifier::external_body]
fn clock_time(hour: i8, minute: i8) -> (r: Result<Time, String>)
    ensures
        r is Ok <==> (0 <= hour <= 23 && 0 <= minute <= 59),
        r matches Ok(t) ==> t == clock_at(hour, minute),
{
    match Time::new(hour, minute, 0, 0) {
        Ok(time) => Ok(time),
        Err(error) => Err(error.to_string()),
    }
}

/// Integer division rounding toward zero, as Rust divides.
pub open spec fn quotient(a: int, b: int) -> int {
    if a >= 0 {
        a / b
    } else {
        -((-a) / b)
    }
}

/// The hour of a time picked as minutes after midnight, cut to eight bits as
/// the picker's value is.
pub open spec fn picked_hour(minutes: i64) -> i8 {
    quotient(minutes as int, 60) as i8
}

/// The minute of a time picked as minutes after midnight, cut to eight bits.
pub open spec fn picked_minute(minutes: i64) -> i8 {
    (minutes - 60 * quotient(minutes as int, 60)) as i8
}

/// The rule a rule form opens with: rule `index`, or for a new rule Monday
/// to Friday at 18:00, dark.
pub fn form_rule(rules: &Vec<Rule>, index: Option<usize>) -> (r: Rule)
    requires
        index matches Some(i) ==> i < rules@.len(),
    ensures
        index matches Some(i) ==> r@ == rules@[i as int]@,
        index is None ==> r@.days == seq![Weekday::Mon, Weekday::Tue, Weekday::Wed, Weekday::Thu, Weekday::Fri]
            && r@.time == clock_at(18, 0) && r@.mode == Mode::Dark,
{
    match index {
        Some(i) => rules[i].clone(),
        None => {
            let days = vec![Weekday::Mon, Weekday::Tue, Weekday::Wed, Weekday::Thu, Weekday::Fri];
            assert(days@ =~= seq![Weekday::Mon, Weekday::Tue, Weekday::Wed, Weekday::Thu, Weekday::Fri]);
            Rule { days, time: clock_time(18, 0).unwrap(), mode: Mode::Dark }
        },
    }
}

/// A rule being edited: which rule it replaces (none for a new one), the days
/// ticked (Monday first), the time once chosen, and the mode.
pub struct Draft {
    pub index: Option<usize>,
    pub days: [bool; 7],
    pub time: Option<Time>,
    pub mode: Mode,
}

/// The editor of the schedule: the schedule shown, the rule being edited, and
/// the error shown. Each step clears the error shown before it, as a new
/// message replaces the old one.
pub struct ScheduleEditor {
    pub schedule: Schedule,
    pub draft: Option<Draft>,
    pub error: String,
}

/// What a choice in the mode picker selects: the second entry is dark.
pub open spec fn picked_mode(choice: Option<usize>) -> Mode {
    if choice == Some(1usize) {
        Mode::Dark
    } else {
        Mode::Light
    }
}

/// The rule that a draft with a time and a day saves.
pub open spec fn drafted_rule(draft: Draft) -> RuleView {
    RuleView { days: flagged_days(draft.days@, 7), time: draft.time->0, mode: draft.mode }
}

/// The schedule with a complete draft saved into it: in place of the rule it
/// edits, or added at the end for a new rule; `None` where that rule is gone.
pub open spec fn saving(schedule: ScheduleView, draft: Draft) -> Option<ScheduleView> {
    match draft.index {
        None => Some(ScheduleView { rules: schedule.rules.push(drafted_rule(draft)), ..schedule }),
        Some(i) => if i < schedule.rules.len() {
            Some(ScheduleView { rules: schedule.rules.update(i as int, drafted_rule(draft)), ..schedule })
        } else {
            None
        },
    }
}

/// A rule opened for editing and saved without a change leaves the schedule
/// as it was, where the rule lists its days in the week's order, none twice
/// (saving lists them so).
pub proof fn reopened_rule_saves_unchanged(schedule: ScheduleView, draft: Draft)
    requires
        draft.index matches Some(i) && i < schedule.rules.len(),
        in_week_order(schedule.rules[draft.index->0 as int].days),
        draft.time == Some(schedule.rules[draft.index->0 as int].time),
        draft.mode == schedule.rules[draft.index->0 as int].mode,
        forall|k: int| 0 <= k < 7 ==> #[trigger] draft.days@[k]
            == schedule.rules[draft.index->0 as int].days.contains(day_at(k)),
    ensures
        saving(schedule, draft) == Some(schedule),
{
    let i = draft.index->0 as int;
    flags_give_back_ordered_days(schedule.rules[i].days, draft.days@);
    assert(drafted_rule(draft) == schedule.rules[i]);
    assert(schedule.rules.update(i, drafted_rule(draft)) =~= schedule.rules);
}

/// Whether a draft edits rule `index` (`None` for a new rule).
pub open spec fn edits(draft: Option<Draft>, index: Option<usize>) -> bool {
    draft matches Some(d) && d.index == index
}

impl ScheduleEditor {
    /// An editor showing `schedule`, with nothing being edited.
    pub fn new(schedule: Schedule) -> (r: ScheduleEditor)
        ensures
            r.schedule@ == schedule@,
            r.draft is None,
            r.error@.len() == 0,
    {
        ScheduleEditor { schedule, draft: None, error: String::new() }
    }

    /// The schedule shown is replaced by `schedule` (it changed elsewhere, or
    /// was written); with `finished`, the rule being edited is closed.
    pub fn show(&mut self, schedule: Schedule, finished: bool)
        ensures
            final(self).schedule@ == schedule@,
            final(self).error == old(self).error,
            finished ==> final(self).draft is None,
            !finished ==> final(self).draft == old(self).draft,
    {
        self.schedule = schedule;
        if finished {
            self.draft = None;
        }
    }

    /// Writing the schedule failed: its error is shown.
    pub fn failed(&mut self, error: String)
        ensures
            final(self).schedule@ == old(self).schedule@,
            final(self).draft == old(self).draft,
            final(self).error@ == error@,
    {
        self.error = error;
    }

    /// Clears the error shown.
    pub fn clear_error(&mut self)
        ensures
            final(self).schedule@ == old(self).schedule@,
            final(self).draft == old(self).draft,
            final(self).error@.len() == 0,
    {
        self.error = String::new();
    }

    /// The schedule shown with automatic switching turned on or off, to be written.
    pub fn with_enabled(&mut self, value: bool) -> (r: Schedule)
        ensures
            final(self).schedule@ == old(self).schedule@,
            final(self).draft == old(self).draft,
            final(self).error@.len() == 0,
            r@ == (ScheduleView { enabled: value, ..old(self).schedule@ }),
    {
        self.error = String::new();
        let mut schedule = self.schedule.clone();
        schedule.enabled = value;
        schedule
    }

    /// The schedule shown with applying on launch turned on or off, to be written.
    pub fn with_apply_on_launch(&mut self, value: bool) -> (r: Schedule)
        ensures
            final(self).schedule@ == old(self).schedule@,
            final(self).draft == old(self).draft,
            final(self).error@.len() == 0,
            r@ == (ScheduleView { apply_on_launch: value, ..old(self).schedule@ }),
    {
        self.error = String::new();
        let mut schedule = self.schedule.clone();
        schedule.apply_on_launch = value;
        schedule
    }

    /// Opens rule `index` for editing, unless it is open already or does not exist.
    pub fn open(&mut self, index: usize)
        ensures
            final(self).schedule@ == old(self).schedule@,
            final(self).error@.len() == 0,
            edits(old(self).draft, Some(index)) || index >= old(self).schedule@.rules.len()
                ==> final(self).draft == old(self).draft,
            !edits(old(self).draft, Some(index)) && index < old(self).schedule@.rules.len() ==> {
                &&& edits(final(self).draft, Some(index))
                &&& final(self).draft->0.time == Some(old(self).schedule@.rules[index as int].time)
                &&& final(self).draft->0.mode == old(self).schedule@.rules[index as int].mode
                &&& forall|i: int| 0 <= i < 7 ==> #[trigger] final(self).draft->0.days@[i]
                        == old(self).schedule@.rules[index as int].days.contains(day_at(i))
            },
    {
        self.error = String::new();
        let open = match &self.draft {
            Some(d) => d.index == Some(index),
            None => false,
        };
        if open {
            return;
        }
        if index < self.schedule.rules.len() {
            let rule = &self.schedule.rules[index];
            assert(self.schedule@.rules[index as int] == rule@);
            self.draft = Some(Draft { index: Some(index), days: day_flags(&rule.days), time: Some(rule.time), mode: rule.mode });
        }
    }

    /// Closes the rule being edited when it is the one folded (`None` for a new rule).
    pub fn close(&mut self, index: Option<usize>)
        ensures
            final(self).schedule@ == old(self).schedule@,
            final(self).error@.len() == 0,
            edits(old(self).draft, index) ==> final(self).draft is None,
            !edits(old(self).draft, index) ==> final(self).draft == old(self).draft,
    {
        self.error = String::new();
        let same = match &self.draft {
            Some(d) => d.index == index,
            None => false,
        };
        if same {
            self.draft = None;
        }
    }

    /// Starts a new rule: Monday to Friday, no time yet, dark.
    pub fn add(&mut self)
        ensures
            final(self).schedule@ == old(self).schedule@,
            final(self).error@.len() == 0,
            edits(final(self).draft, None),
            final(self).draft->0.time is None,
            final(self).draft->0.mode == Mode::Dark,
            final(self).draft->0.days@ == seq![true, true, true, true, true, false, false],
    {
        self.error = String::new();
        self.draft = Some(Draft { index: None, days: [true, true, true, true, true, false, false], time: None, mode: Mode::Dark });
        assert(self.draft->0.days@ =~= seq![true, true, true, true, true, false, false]);
    }

    /// Stops editing.
    pub fn cancel(&mut self)
        ensures
            final(self).schedule@ == old(self).schedule@,
            final(self).error@.len() == 0,
            final(self).draft is None,
    {
        self.error = String::new();
        self.draft = None;
    }

    /// Ticks or unticks day `index` (Monday being 0) of the rule being edited.
    pub fn set_day(&mut self, index: usize, value: bool)
        ensures
            final(self).schedule@ == old(self).schedule@,
            final(self).error@.len() == 0,
            old(self).draft is None ==> final(self).draft is None,
            old(self).draft is Some ==> {
                let (d, n) = (old(self).draft->0, final(self).draft->0);
                &&& final(self).draft is Some
                &&& n.index == d.index && n.time == d.time && n.mode == d.mode
                &&& n.days@ == if index < 7 { d.days@.update(index as int, value) } else { d.days@ }
            },
    {
        self.error = String::new();
        match &mut self.draft {
            Some(d) => {
                if index < 7 {
                    d.days[index] = value;
                }
            },
            None => {},
        }
    }

    /// Chooses the time of the rule being edited, given in minutes after
    /// midnight; where the hour or the minute is no time of day, the time stays
    /// as it was and jiff's error is shown.
    pub fn set_time(&mut self, minutes: i64)
        ensures
            final(self).schedule@ == old(self).schedule@,
            old(self).draft is None ==> final(self).draft is None && final(self).error@.len() == 0,
            old(self).draft is Some ==> {
                let (d, n) = (old(self).draft->0, final(self).draft->0);
                let (hour, minute) = (picked_hour(minutes), picked_minute(minutes));
                &&& final(self).draft is Some
                &&& n.index == d.index && n.days == d.days && n.mode == d.mode
                &&& 0 <= hour <= 23 && 0 <= minute <= 59 ==> n.time == Some(clock_at(hour, minute))
                    && final(self).error@.len() == 0
                &&& !(0 <= hour <= 23 && 0 <= minute <= 59) ==> n.time == d.time
            },
    {
        self.error = String::new();
        if self.draft.is_none() {
            return;
        }
        let hour = (minutes / 60) as i8;
        let minute = (minutes % 60) as i8;
        assert(hour == picked_hour(minutes) && minute == picked_minute(minutes));
        match clock_time(hour, minute) {
            Ok(time) => {
                match &mut self.draft {
                    Some(d) => {
                        d.time = Some(time);
                    },
                    None => {},
                }
            },
            Err(error) => {
                self.error = error;
            },
        }
    }

    /// Chooses the mode of the rule being edited from the picker.
    pub fn set_mode(&mut self, choice: Option<usize>)
        ensures
            final(self).schedule@ == old(self).schedule@,
            final(self).error@.len() == 0,
            old(self).draft is None ==> final(self).draft is None,
            old(self).draft is Some ==> {
                let (d, n) = (old(self).draft->0, final(self).draft->0);
                &&& final(self).draft is Some
                &&& n.index == d.index && n.time == d.time && n.days == d.days
                &&& n.mode == picked_mode(choice)
            },
    {
        self.error = String::new();
        match &mut self.draft {
            Some(d) => {
                d.mode = if choice == Some(1) { Mode::Dark } else { Mode::Light };
            },
            None => {},
        }
    }

    /// Whether the rule being edited can be saved: it has a time and a day.
    pub fn can_save(&self) -> (r: bool)
        ensures
            r == (self.draft matches Some(d) && d.time is Some
                && exists|i: int| 0 <= i < 7 && #[trigger] d.days@[i]),
    {
        match &self.draft {
            Some(d) => {
                if d.time.is_none() {
                    return false;
                }
                let mut i: usize = 0;
                while i < 7
                    invariant
                        i <= 7,
                        self.draft == Some(*d),
                        d.time is Some,
                        forall|k: int| 0 <= k < i ==> !#[trigger] d.days@[k],
                    decreases 7 - i,
                {
                    if d.days[i] {
                        assert(d.days@[i as int]);
                        return true;
                    }
                    i = i + 1;
                }
                false
            },
            None => false,
        }
    }

    /// The schedule with the rule being edited saved, to be written; `None`
    /// where nothing is being edited or the rule it replaces is gone, and
    /// `None` with the error shown where the rule lacks a time or a day.
    pub fn save(&mut self, locale: Locale) -> (r: Option<Schedule>)
        ensures
            final(self).schedule@ == old(self).schedule@,
            final(self).draft == old(self).draft,
            old(self).draft is None ==> r is None && final(self).error@.len() == 0,
            old(self).draft is Some && old(self).draft->0.time is None
                ==> r is None && final(self).error@ == no_time_message(locale),
            old(self).draft is Some && old(self).draft->0.time is Some
                && flagged_days(old(self).draft->0.days@, 7).len() == 0
                ==> r is None && final(self).error@ == no_day_message(locale),
            old(self).draft is Some && old(self).draft->0.time is Some
                && flagged_days(old(self).draft->0.days@, 7).len() > 0 ==> {
                &&& final(self).error@.len() == 0
                &&& match saving(old(self).schedule@, old(self).draft->0) {
                    Some(v) => r matches Some(s) && s@ == v,
                    None => r is None,
                }
            },
    {
        self.error = String::new();
        let (days, time, mode, index) = match &self.draft {
            Some(d) => (d.days, d.time, d.mode, d.index),
            None => {
                return None;
            },
        };
        match draft_rule(days, time, mode, locale) {
            Ok(rule) => self.schedule.with_rule(index, rule),
            Err(error) => {
                self.error = error;
                None
            },
        }
    }

    /// The schedule without the rule being edited, to be written; `None` for
    /// a new rule, where nothing is edited, or where the rule is gone.
    pub fn remove(&mut self) -> (r: Option<Schedule>)
        ensures
            final(self).schedule@ == old(self).schedule@,
            final(self).draft == old(self).draft,
            final(self).error@.len() == 0,
            match old(self).draft {
                Some(d) => match d.index {
                    Some(i) => if i < old(self).schedule@.rules.len() {
                        r matches Some(s) && s@ == (ScheduleView { rules: old(self).schedule@.rules.remove(i as int), ..old(self).schedule@ })
                    } else {
                        r is None
                    },
                    None => r is None,
                },
                None => r is None,
            },
    {
        self.error = String::new();
        match &self.draft {
            Some(d) => match d.index {
                Some(i) => self.schedule.without_rule(i),
                None => None,
            },
            None => None,
        }
    }
}

} // verus!
