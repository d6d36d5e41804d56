use vstd::prelude::*;

use jiff::civil::{Date, DateTime, Time};
use jiff::tz::TimeZone;
use jiff::Zoned;

use crate::locale::Locale;
use crate::mode::Mode;

verus! {

#[verifier::external_type_specification]
#[verifier::external_body]
pub struct ExZoned(Zoned);

#[verifier::external_type_specification]
#[verifier::external_body]
pub struct ExDate(Date);

#[verifier::external_type_specification]
#[verifier::external_body]
pub struct ExDateTime(DateTime);

#[verifier::external_type_specification]
#[verifier::external_body]
pub struct ExTime(Time);

#[verifier::external_type_specification]
#[verifier::external_body]
pub struct ExTimeZone(TimeZone);

/// A day of the week, Monday first.
#[derive(Clone, Copy, Debug, PartialEq, Eq, Structural)]
pub enum Weekday {
    Mon,
    Tue,
    Wed,
    Thu,
    Fri,
    Sat,
    Sun,
}

/// The position of a day in the week, Monday being 0.
pub open spec fn day_index(day: Weekday) -> u8 {
    match day {
        Weekday::Mon => 0,
        Weekday::Tue => 1,
        Weekday::Wed => 2,
        Weekday::Thu => 3,
        Weekday::Fri => 4,
        Weekday::Sat => 5,
        Weekday::Sun => 6,
    }
}

/// The day at a position of the week, Monday being 0.
pub open spec fn day_at(index: int) -> Weekday {
    if index == 0 {
        Weekday::Mon
    } else if index == 1 {
        Weekday::Tue
    } else if index == 2 {
        Weekday::Wed
    } else if index == 3 {
        Weekday::Thu
    } else if index == 4 {
        Weekday::Fri
    } else if index == 5 {
        Weekday::Sat
    } else {
        Weekday::Sun
    }
}

impl Weekday {
    /// The position of this day in the week, Monday being 0.
    pub fn index(self) -> (r: u8)
        ensures
            r == day_index(self),
            r < 7,
    {
        match self {
            Weekday::Mon => 0,
            Weekday::Tue => 1,
            Weekday::Wed => 2,
            Weekday::Thu => 3,
            Weekday::Fri => 4,
            Weekday::Sat => 5,
            Weekday::Sun => 6,
        }
    }

    /// The seven days in order, Monday first.
    pub fn all() -> (r: Vec<Weekday>)
        ensures
            r@.len() == 7,
            forall|i: int| 0 <= i < 7 ==> #[trigger] r@[i] == day_at(i),
    {
        vec![
            Weekday::Mon,
            Weekday::Tue,
            Weekday::Wed,
            Weekday::Thu,
            Weekday::Fri,
            Weekday::Sat,
            Weekday::Sun,
        ]
    }
}

/// Every day has its position, and the position gives back the day.
pub proof fn day_index_round_trip(day: Weekday)
    ensures
        day_at(day_index(day) as int) == day,
        day_index(day) < 7,
{
}

/// One recurring transition: on the listed days, at `time`, switch to `mode`.
pub struct Rule {
    pub days: Vec<Weekday>,
    pub time: Time,
    pub mode: Mode,
}

/// The weekly schedule of transitions.
pub struct Schedule {
    pub enabled: bool,
    pub apply_on_launch: bool,
    pub rules: Vec<Rule>,
}

/// What a rule holds, as plain values.
pub struct RuleView {
    pub days: Seq<Weekday>,
    pub time: Time,
    pub mode: Mode,
}

impl View for Rule {
    type V = RuleView;

    open spec fn view(&self) -> RuleView {
        RuleView { days: self.days@, time: self.time, mode: self.mode }
    }
}

impl DeepView for Rule {
    type V = RuleView;

    open spec fn deep_view(&self) -> RuleView {
        self@
    }
}

/// What a schedule holds, as plain values.
pub struct ScheduleView {
    pub enabled: bool,
    pub apply_on_launch: bool,
    pub rules: Seq<RuleView>,
}

impl View for Schedule {
    type V = ScheduleView;

    open spec fn view(&self) -> ScheduleView {
        ScheduleView {
            enabled: self.enabled,
            apply_on_launch: self.apply_on_launch,
            rules: self.rules.deep_view(),
        }
    }
}

impl Clone for Rule {
    fn clone(&self) -> (r: Self)
        ensures
            r@ == self@,
    {
        let days = self.days.clone();
        assert forall|i: int| 0 <= i < days@.len() implies days@[i] == self.days@[i] by {
            assert(cloned::<Weekday>(self.days[i], days[i]));
        }
        assert(days@ =~= self.days@);
        Rule { days, time: self.time, mode: self.mode }
    }
}

impl Clone for Schedule {
    fn clone(&self) -> (r: Self)
        ensures
            r@ == self@,
    {
        let rules = self.rules.clone();
        assert forall|i: int| 0 <= i < rules@.len() implies rules@[i]@ == self.rules@[i]@ by {
            assert(cloned::<Rule>(self.rules[i], rules[i]));
        }
        assert(rules.deep_view() =~= self.rules.deep_view());
        Schedule { enabled: self.enabled, apply_on_launch: self.apply_on_launch, rules }
    }
}

impl Default for Schedule {
    fn default() -> (r: Self)
        ensures
            r@ == (ScheduleView { enabled: false, apply_on_launch: false, rules: Seq::empty() }),
    {
        let rules: Vec<Rule> = Vec::new();
        assert(rules.deep_view() =~= Seq::<RuleView>::empty());
        Schedule { enabled: false, apply_on_launch: false, rules }
    }
}

/// A coming transition: at the given moment, switch to `mode`.
pub struct Event {
    pub at: Zoned,
    pub mode: Mode,
}

impl Clone for Event {
    fn clone(&self) -> (r: Self)
        ensures
            r == *self,
    {
        Event { at: zoned_clone(&self.at), mode: self.mode }
    }
}

/// The civil date of a zoned moment, as jiff's `Zoned::date` gives it.
pub uninterp spec fn date_of(zoned: Zoned) -> Date;

/// The time zone of a zoned moment, as jiff's `Zoned::time_zone` gives it.
pub uninterp spec fn zone_of(zoned: Zoned) -> TimeZone;

/// The date `days` days before `date`, as jiff's `Date::checked_sub` gives
/// it; `None` where jiff reports an error.
pub uninterp spec fn date_minus(date: Date, days: i64) -> Option<Date>;

/// The date `days` days after `date`, as jiff's `Date::checked_add` gives
/// it; `None` where jiff reports an error.
pub uninterp spec fn date_plus(date: Date, days: i64) -> Option<Date>;

/// The day of the week of a civil date, as jiff's `Date::weekday` gives it.
pub uninterp spec fn weekday_of(date: Date) -> Weekday;

/// A civil date at a time of day, as jiff's `Date::to_datetime` gives it.
pub uninterp spec fn datetime_of(date: Date, time: Time) -> DateTime;

/// A civil date and time in a time zone, as jiff's `DateTime::to_zoned`
/// gives it; `None` where jiff reports an error.
pub uninterp spec fn zoned_at(datetime: DateTime, zone: TimeZone) -> Option<Zoned>;

/// The moment of a zoned value in nanoseconds since the Unix epoch, as jiff's
/// `Timestamp::as_nanosecond` gives it for `Zoned::timestamp`.
pub uninterp spec fn nanos_of(zoned: Zoned) -> i128;

/// `Zoned::date`: the civil date of a zoned moment, named `date_of`.
#[verifier::external_body]
pub(crate) fn zoned_date(zoned: &Zoned) -> (r: Date)
    ensures
        r == date_of(*zoned),
{
    zoned.date()
}

/// `Zoned::time_zone`: the time zone of a zoned moment, cloned, named `zone_of`.
#[verifier::external_body]
fn zoned_time_zone(zoned: &Zoned) -> (r: TimeZone)
    ensures
        r == zone_of(*zoned),
{
    zoned.time_zone().clone()
}

/// `Date::checked_sub` with a span of `days` days, named `date_minus`; the
/// error becomes `None`. jiff's `Span::days` panics beyond its range of
/// days, so the count is kept to a week.
#[verifier::external_body]
fn date_before(date: Date, days: i64) -> (r: Option<Date>)
    requires
        0 <= days <= 7,
    ensures
        r == date_minus(date, days),
{
    date.checked_sub(jiff::ToSpan::days(days)).ok()
}

/// `Date::checked_add` with a span of `days` days, named `date_plus`; the
/// error becomes `None`. The count is kept to a week, as for `date_before`.
#[verifier::external_body]
fn date_after(date: Date, days: i64) -> (r: Option<Date>)
    requires
        0 <= days <= 7,
    ensures
        r == date_plus(date, days),
{
    date.checked_add(jiff::ToSpan::days(days)).ok()
}

/// `Date::weekday`: the day of the week of a civil date, told apart variant by
/// variant, named `weekday_of`.
#[verifier::external_body]
pub(crate) fn date_weekday(date: Date) -> (r: Weekday)
    ensures
        r == weekday_of(date),
{
    match date.weekday() {
        jiff::civil::Weekday::Monday => Weekday::Mon,
        jiff::civil::Weekday::Tuesday => Weekday::Tue,
        jiff::civil::Weekday::Wednesday => Weekday::Wed,
        jiff::civil::Weekday::Thursday => Weekday::Thu,
        jiff::civil::Weekday::Friday => Weekday::Fri,
        jiff::civil::Weekday::Saturday => Weekday::Sat,
        jiff::civil::Weekday::Sunday => Weekday::Sun,
    }
}

/// `Date::to_datetime`: the civil date at a time of day, named `datetime_of`.
#[verifier::external_body]
fn date_at(date: Date, time: Time) -> (r: DateTime)
    ensures
        r == datetime_of(date, time),
{
    date.to_datetime(time)
}

/// `DateTime::to_zoned`: the civil date and time in a time zone, named
/// `zoned_at`; the error becomes `None`.
#[verifier::external_body]
fn in_zone(datetime: DateTime, zone: &TimeZone) -> (r: Option<Zoned>)
    ensures
        r == zoned_at(datetime, *zone),
{
    datetime.to_zoned(zone.clone()).ok()
}

/// The smallest number of nanoseconds since the Unix epoch a jiff timestamp
/// holds (jiff's range runs from the year -9999 to the year 9999).
pub open spec fn earliest_nanos() -> int {
    -1_000_000_000_000_000_000_000
}

/// The largest number of nanoseconds since the Unix epoch a jiff timestamp holds.
pub open spec fn latest_nanos() -> int {
    1_000_000_000_000_000_000_000
}

/// `Zoned::timestamp` read as nanoseconds since the Unix epoch
/// (`Timestamp::as_nanosecond`, which is lossless, so that these numbers order
/// moments as the timestamps do), named `nanos_of`. Stated too: the number lies
/// within jiff's documented range of years.
#[verifier::external_body]
pub(crate) fn zoned_nanos(zoned: &Zoned) -> (r: i128)
    ensures
        r == nanos_of(*zoned),
        earliest_nanos() < r < latest_nanos(),
{
    zoned.timestamp().as_nanosecond()
}

/// `Zoned::clone`: an equal zoned moment.
#[verifier::external_body]
pub(crate) fn zoned_clone(zoned: &Zoned) -> (r: Zoned)
    ensures
        r == *zoned,
{
    zoned.clone()
}

/// Index `j` holds the latest moment at or before `now`, and among equal such
/// moments the last one listed.
pub open spec fn is_latest(ats: Seq<i128>, now: i128, j: int) -> bool {
    &&& 0 <= j < ats.len()
    &&& ats[j] <= now
    &&& forall|k: int| 0 <= k < ats.len() && ats[k] <= now ==> #[trigger] ats[k] <= ats[j]
    &&& forall|k: int| j < k < ats.len() && ats[k] <= now ==> #[trigger] ats[k] < ats[j]
}

/// Index `j` holds the earliest moment after `now`, and among equal such
/// moments the last one listed.
pub open spec fn is_earliest(ats: Seq<i128>, now: i128, j: int) -> bool {
    &&& 0 <= j < ats.len()
    &&& ats[j] > now
    &&& forall|k: int| 0 <= k < ats.len() && ats[k] > now ==> #[trigger] ats[k] >= ats[j]
    &&& forall|k: int| j < k < ats.len() && ats[k] > now ==> #[trigger] ats[k] > ats[j]
}

/// Finds the latest of the listed moments at or before `now`.
pub fn latest_index(ats: &Vec<i128>, now: i128) -> (r: Option<usize>)
    ensures
        r is None <==> forall|k: int| 0 <= k < ats@.len() ==> #[trigger] ats@[k] > now,
        r matches Some(j) ==> is_latest(ats@, now, j as int),
{
    let mut latest: Option<usize> = None;
    let mut k: usize = 0;
    while k < ats.len()
        invariant
            k <= ats@.len(),
            latest is None ==> forall|i: int| 0 <= i < k ==> #[trigger] ats@[i] > now,
            latest matches Some(j) ==> is_latest(ats@.subrange(0, k as int), now, j as int),
        decreases ats@.len() - k,
    {
        let at = ats[k];
        let take = at <= now && match latest {
            None => true,
            Some(j) => at >= ats[j],
        };
        proof {
            let next = ats@.subrange(0, k + 1);
            assert(forall|i: int| 0 <= i < k ==> #[trigger] next[i] == ats@.subrange(0, k as int)[i]);
            assert(next[k as int] == at);
        }
        if take {
            latest = Some(k);
        }
        k = k + 1;
    }
    assert(ats@.subrange(0, k as int) =~= ats@);
    latest
}

/// Finds the earliest of the listed moments after `now`.
pub fn earliest_index(ats: &Vec<i128>, now: i128) -> (r: Option<usize>)
    ensures
        r is None <==> forall|k: int| 0 <= k < ats@.len() ==> #[trigger] ats@[k] <= now,
        r matches Some(j) ==> is_earliest(ats@, now, j as int),
{
    let mut next: Option<usize> = None;
    let mut k: usize = 0;
    while k < ats.len()
        invariant
            k <= ats@.len(),
            next is None ==> forall|i: int| 0 <= i < k ==> #[trigger] ats@[i] <= now,
            next matches Some(j) ==> is_earliest(ats@.subrange(0, k as int), now, j as int),
        decreases ats@.len() - k,
    {
        let at = ats[k];
        let take = at > now && match next {
            None => true,
            Some(j) => at <= ats[j],
        };
        proof {
            let upto = ats@.subrange(0, k + 1);
            assert(forall|i: int| 0 <= i < k ==> #[trigger] upto[i] == ats@.subrange(0, k as int)[i]);
            assert(upto[k as int] == at);
        }
        if take {
            next = Some(k);
        }
        k = k + 1;
    }
    assert(ats@.subrange(0, k as int) =~= ats@);
    next
}

/// The latest moment at or before `now` is unique: two indices that both hold
/// it are the same.
pub proof fn latest_is_unique(ats: Seq<i128>, now: i128, i: int, j: int)
    requires
        is_latest(ats, now, i),
        is_latest(ats, now, j),
    ensures
        i == j,
{
    if i < j {
        assert(ats[j] < ats[i]);
    } else if j < i {
        assert(ats[i] < ats[j]);
    }
}

/// The earliest moment after `now` is unique.
pub proof fn earliest_is_unique(ats: Seq<i128>, now: i128, i: int, j: int)
    requires
        is_earliest(ats, now, i),
        is_earliest(ats, now, j),
    ensures
        i == j,
{
    if i < j {
        assert(ats[j] > ats[i]);
    } else if j < i {
        assert(ats[i] > ats[j]);
    }
}

/// A moment at or before `now` and one after it are never confused: no index
/// is both the latest past moment and the earliest coming one.
pub proof fn past_and_coming_differ(ats: Seq<i128>, now: i128, i: int, j: int)
    requires
        is_latest(ats, now, i),
        is_earliest(ats, now, j),
    ensures
        i != j,
        ats[i] < ats[j],
{
}

/// Whether a list of days holds the given day.
pub fn has_day(days: &Vec<Weekday>, day: Weekday) -> (r: bool)
    ensures
        r == days@.contains(day),
{
    let mut i: usize = 0;
    while i < days.len()
        invariant
            i <= days@.len(),
            forall|k: int| 0 <= k < i ==> #[trigger] days@[k] != day,
        decreases days@.len() - i,
    {
        if days[i] == day {
            assert(days@[i as int] == day);
            return true;
        }
        i = i + 1;
    }
    false
}

/// The modes of a list of rules that have at least one day.
pub open spec fn scheduled_mode(rules: Seq<RuleView>, mode: Mode) -> bool {
    exists|i: int| 0 <= i < rules.len() && #[trigger] rules[i].mode == mode && rules[i].days.len() > 0
}

/// The modes of the rules among the first `n` that list `day`, in order.
pub open spec fn day_modes(rules: Seq<RuleView>, day: Weekday, n: int) -> Seq<Mode>
    decreases n,
{
    if n <= 0 {
        Seq::empty()
    } else if rules[n - 1].days.contains(day) {
        day_modes(rules, day, n - 1).push(rules[n - 1].mode)
    } else {
        day_modes(rules, day, n - 1)
    }
}

/// The modes of the transitions a walk over days with the given weekdays
/// meets, in the order met: day by day, and on each day the rules listing it
/// in their order.
pub open spec fn plan_modes(rules: Seq<RuleView>, days: Seq<Weekday>) -> Seq<Mode>
    decreases days.len(),
{
    if days.len() == 0 {
        Seq::empty()
    } else {
        plan_modes(rules, days.drop_last()) + day_modes(rules, days.last(), rules.len() as int)
    }
}

/// One occurrence of a rule: the zoned moment and the mode switched to.
pub type Occurrence = (Zoned, Mode);

/// The date `k` days from the date of `now`, forward or back.
pub open spec fn walk_date(now: Zoned, forward: bool, k: int) -> Option<Date> {
    if forward {
        date_plus(date_of(now), k as i64)
    } else {
        date_minus(date_of(now), k as i64)
    }
}

/// The occurrences on `date`, in the time zone `zone`, of the first `n`
/// rules that list its day, in the rules' order; `None` where a moment could
/// not be formed.
pub open spec fn day_occurrences(rules: Seq<RuleView>, date: Date, zone: TimeZone, n: int) -> Option<Seq<Occurrence>>
    decreases n,
{
    if n <= 0 {
        Some(Seq::empty())
    } else {
        match day_occurrences(rules, date, zone, n - 1) {
            None => None,
            Some(before) => if rules[n - 1].days.contains(weekday_of(date)) {
                match zoned_at(datetime_of(date, rules[n - 1].time), zone) {
                    Some(at) => Some(before.push((at, rules[n - 1].mode))),
                    None => None,
                }
            } else {
                Some(before)
            },
        }
    }
}

/// The occurrences on the first `k` days of a walk from the date of `now`
/// (back, or forward), day by day, in the time zone of `now`; `None` where a
/// date or a moment could not be formed.
pub open spec fn walk_occurrences(rules: Seq<RuleView>, now: Zoned, forward: bool, k: int) -> Option<Seq<Occurrence>>
    decreases k,
{
    if k <= 0 {
        Some(Seq::empty())
    } else {
        match walk_occurrences(rules, now, forward, k - 1) {
            None => None,
            Some(before) => match walk_date(now, forward, k - 1) {
                None => None,
                Some(date) => match day_occurrences(rules, date, zone_of(now), rules.len() as int) {
                    None => None,
                    Some(day) => Some(before + day),
                },
            },
        }
    }
}

/// The moments of a list of occurrences, in nanoseconds.
pub open spec fn instants(occurrences: Seq<Occurrence>) -> Seq<i128> {
    occurrences.map_values(|o: Occurrence| nanos_of(o.0))
}

/// The mode of the latest occurrence at or before `now` (the last listed
/// among equal ones), if there is one.
pub open spec fn mode_in_force(occurrences: Seq<Occurrence>, now: i128) -> Option<Mode> {
    if exists|j: int| is_latest(instants(occurrences), now, j) {
        Some(occurrences[choose|j: int| is_latest(instants(occurrences), now, j)].1)
    } else {
        None
    }
}

/// The earliest occurrence after `now` (the last listed among equal ones), if
/// there is one.
pub open spec fn coming_event(occurrences: Seq<Occurrence>, now: i128) -> Option<Event> {
    if exists|j: int| is_earliest(instants(occurrences), now, j) {
        let j = choose|j: int| is_earliest(instants(occurrences), now, j);
        Some(Event { at: occurrences[j].0, mode: occurrences[j].1 })
    } else {
        None
    }
}

/// The mode a schedule calls for at `now`: that of the latest occurrence at or
/// before `now` over the eight days back from its date; `None` when the
/// schedule is off, has no such occurrence, or a date could not be formed.
pub open spec fn current_mode(schedule: ScheduleView, now: Zoned) -> Option<Mode> {
    if !schedule.enabled {
        None
    } else {
        match walk_occurrences(schedule.rules, now, false, 8) {
            None => None,
            Some(occurrences) => mode_in_force(occurrences, nanos_of(now)),
        }
    }
}

/// The next transition a schedule plans after `now`: the earliest occurrence
/// after `now` over the eight days forward from its date; `None` when the
/// schedule is off, has none, or a date could not be formed.
pub open spec fn next_event(schedule: ScheduleView, now: Zoned) -> Option<Event> {
    if !schedule.enabled {
        None
    } else {
        match walk_occurrences(schedule.rules, now, true, 8) {
            None => None,
            Some(occurrences) => coming_event(occurrences, nanos_of(now)),
        }
    }
}

/// The occurrences that a walk over the days around `now` found: their moments
/// in nanoseconds, their modes and their zoned moments, side by side.
struct Found {
    ats: Vec<i128>,
    modes: Vec<Mode>,
    zoned: Vec<Zoned>,
}

impl Found {
    /// The found occurrences are `occurrences`, field by field.
    spec fn holds(&self, occurrences: Seq<Occurrence>) -> bool {
        &&& self.ats@ == instants(occurrences)
        &&& self.modes@ == occurrences.map_values(|o: Occurrence| o.1)
        &&& self.zoned@ == occurrences.map_values(|o: Occurrence| o.0)
    }
}

impl Schedule {
    /// Walks the eight days from `now` back (or forward) and lists each rule
    /// that applies on each of them, in order; `None` where a date or a zoned
    /// moment could not be formed.
    fn occurrences(&self, now: &Zoned, forward: bool) -> (r: Option<Found>)
        ensures
            match walk_occurrences(self@.rules, *now, forward, 8) {
                None => r is None,
                Some(occurrences) => r matches Some(f) && f.holds(occurrences),
            },
            r matches Some(f) ==> {
                &&& forall|k: int| 0 <= k < f.modes@.len() ==> scheduled_mode(self@.rules, #[trigger] f.modes@[k])
                &&& exists|days: Seq<Weekday>| days.len() == 8 && f.modes@ == #[trigger] plan_modes(self@.rules, days)
            },
    {
        let ghost rules = self@.rules;
        let ghost mut seen: Seq<Weekday> = Seq::empty();
        let ghost mut occ: Seq<Occurrence> = Seq::empty();
        let today = zoned_date(now);
        let zone = zoned_time_zone(now);
        let mut found = Found { ats: Vec::new(), modes: Vec::new(), zoned: Vec::new() };
        assert(found.ats@ =~= instants(occ));
        assert(found.modes@ =~= occ.map_values(|o: Occurrence| o.1));
        assert(found.zoned@ =~= occ.map_values(|o: Occurrence| o.0));
        let mut offset: i64 = 0;
        while offset <= 7
            invariant
                0 <= offset <= 8,
                rules == self@.rules,
                today == date_of(*now),
                zone == zone_of(*now),
                seen.len() == offset,
                found.modes@ == plan_modes(rules, seen),
                walk_occurrences(rules, *now, forward, offset as int) == Some(occ),
                found.holds(occ),
                forall|k: int| 0 <= k < found.modes@.len() ==> scheduled_mode(self@.rules, #[trigger] found.modes@[k]),
            decreases 8 - offset,
        {
            let shifted = if forward {
                date_after(today, offset)
            } else {
                date_before(today, offset)
            };
            assert(shifted == walk_date(*now, forward, offset as int));
            let date = match shifted {
                Some(date) => date,
                None => {
                    assert(walk_occurrences(rules, *now, forward, offset + 1) is None);
                    assert(walk_occurrences(rules, *now, forward, 8) is None) by {
                        lemma_walk_stays_failed(rules, *now, forward, offset + 1, 8);
                    }
                    return None;
                },
            };
            let weekday = date_weekday(date);
            let ghost before = occ;
            let ghost mut day: Seq<Occurrence> = Seq::empty();
            assert(plan_modes(rules, seen) + day_modes(rules, weekday, 0) =~= plan_modes(rules, seen));
            assert(before + day =~= before);
            let mut i: usize = 0;
            while i < self.rules.len()
                invariant
                    i <= self.rules@.len(),
                    rules == self@.rules,
                    rules.len() == self.rules@.len(),
                    zone == zone_of(*now),
                    weekday == weekday_of(date),
                    walk_date(*now, forward, offset as int) == Some(date),
                    walk_occurrences(rules, *now, forward, offset as int) == Some(before),
                    seen.len() == offset,
                    offset <= 7,
                    found.modes@ == plan_modes(rules, seen) + day_modes(rules, weekday, i as int),
                    day_occurrences(rules, date, zone, i as int) == Some(day),
                    found.holds(before + day),
                    forall|k: int| 0 <= k < found.modes@.len() ==> scheduled_mode(self@.rules, #[trigger] found.modes@[k]),
                decreases self.rules@.len() - i,
            {
                let rule = &self.rules[i];
                assert(rules[i as int] == self.rules@[i as int]@);
                if has_day(&rule.days, weekday) {
                    let at = match in_zone(date_at(date, rule.time), &zone) {
                        Some(at) => at,
                        None => {
                            proof {
                                assert(day_occurrences(rules, date, zone, i + 1) is None);
                                lemma_day_stays_failed(rules, date, zone, i + 1, rules.len() as int);
                                assert(walk_occurrences(rules, *now, forward, offset + 1) is None);
                                lemma_walk_stays_failed(rules, *now, forward, offset + 1, 8);
                            }
                            return None;
                        },
                    };
                    proof {
                        assert(self@.rules.len() == self.rules@.len());
                        assert(self@.rules[i as int] == self.rules@[i as int]@);
                        assert(self@.rules[i as int].days.len() > 0);
                        assert(self@.rules[i as int].mode == rule.mode);
                        assert(scheduled_mode(self@.rules, rule.mode));
                    }
                    let ghost fmodes = found.modes@;
                    let ghost fats = found.ats@;
                    let ghost fzoned = found.zoned@;
                    found.ats.push(zoned_nanos(&at));
                    found.modes.push(rule.mode);
                    found.zoned.push(at);
                    proof {
                        let o: Occurrence = (at, rule.mode);
                        assert(day_occurrences(rules, date, zone, i + 1) == Some(day.push(o)));
                        assert(before + day.push(o) =~= (before + day).push(o));
                        let all = before + day.push(o);
                        assert(found.ats@ =~= instants(all));
                        assert(found.modes@ =~= all.map_values(|o: Occurrence| o.1));
                        assert(found.zoned@ =~= all.map_values(|o: Occurrence| o.0));
                        day = day.push(o);
                    }
                    assert(found.modes@ =~= plan_modes(rules, seen) + day_modes(rules, weekday, i + 1));
                } else {
                    assert(day_occurrences(rules, date, zone, i + 1) == Some(day));
                    assert(found.modes@ =~= plan_modes(rules, seen) + day_modes(rules, weekday, i + 1));
                }
                i = i + 1;
            }
            proof {
                let next = seen.push(weekday);
                assert(next.drop_last() =~= seen);
                assert(plan_modes(rules, next) == plan_modes(rules, seen) + day_modes(rules, weekday, rules.len() as int));
                seen = next;
                assert(walk_occurrences(rules, *now, forward, offset + 1) == Some(before + day));
                occ = before + day;
            }
            offset = offset + 1;
        }
        assert(seen.len() == 8 && found.modes@ == plan_modes(self@.rules, seen));
        Some(found)
    }

    /// The mode in effect at `now`: that of the latest transition at or before
    /// `now` over the past week (the last listed among equal ones), or `None`
    /// when the schedule is off, has no such transition, or a date could not be
    /// formed.
    pub fn current(&self, now: &Zoned) -> (r: Option<Mode>)
        ensures
            r == current_mode(self@, *now),
            !self.enabled ==> r is None,
            r matches Some(m) ==> scheduled_mode(self@.rules, m),
            r matches Some(m) ==> exists|days: Seq<Weekday>| days.len() == 8
                && #[trigger] plan_modes(self@.rules, days).contains(m),
    {
        if !self.enabled {
            return None;
        }
        let found = match self.occurrences(now, false) {
            Some(found) => found,
            None => {
                return None;
            },
        };
        let ghost occ = walk_occurrences(self@.rules, *now, false, 8)->0;
        let now_at = zoned_nanos(now);
        match latest_index(&found.ats, now_at) {
            Some(j) => {
                proof {
                    let k = choose|k: int| is_latest(instants(occ), now_at, k);
                    latest_is_unique(instants(occ), now_at, j as int, k);
                    assert(found.modes@[j as int] == occ[j as int].1);
                }
                assert(found.modes@.contains(found.modes@[j as int]));
                Some(found.modes[j])
            },
            None => {
                assert(!exists|k: int| is_latest(instants(occ), now_at, k)) by {
                    if exists|k: int| is_latest(instants(occ), now_at, k) {
                        let k = choose|k: int| is_latest(instants(occ), now_at, k);
                        assert(found.ats@[k] <= now_at);
                    }
                }
                None
            },
        }
    }

    /// The next transition after `now` over the coming week (the last listed
    /// among equal ones), or `None` when the schedule is off, has none, or a
    /// date could not be formed.
    pub fn next(&self, now: &Zoned) -> (r: Option<Event>)
        ensures
            r == next_event(self@, *now),
            !self.enabled ==> r is None,
            r matches Some(e) ==> scheduled_mode(self@.rules, e.mode),
            r matches Some(e) ==> exists|days: Seq<Weekday>| days.len() == 8
                && #[trigger] plan_modes(self@.rules, days).contains(e.mode),
    {
        if !self.enabled {
            return None;
        }
        let found = match self.occurrences(now, true) {
            Some(found) => found,
            None => {
                return None;
            },
        };
        let ghost occ = walk_occurrences(self@.rules, *now, true, 8)->0;
        let now_at = zoned_nanos(now);
        match earliest_index(&found.ats, now_at) {
            Some(j) => {
                proof {
                    let k = choose|k: int| is_earliest(instants(occ), now_at, k);
                    earliest_is_unique(instants(occ), now_at, j as int, k);
                    assert(found.modes@[j as int] == occ[j as int].1);
                    assert(found.zoned@[j as int] == occ[j as int].0);
                }
                assert(found.modes@.contains(found.modes@[j as int]));
                Some(Event { at: zoned_clone(&found.zoned[j]), mode: found.modes[j] })
            },
            None => {
                assert(!exists|k: int| is_earliest(instants(occ), now_at, k)) by {
                    if exists|k: int| is_earliest(instants(occ), now_at, k) {
                        let k = choose|k: int| is_earliest(instants(occ), now_at, k);
                        assert(found.ats@[k] > now_at);
                    }
                }
                None
            },
        }
    }
}

/// Over one list of occurrence moments, the earliest one after `now` is, at
/// its own moment, the latest one at or before it (ties go to the last listed
/// both ways).
pub proof fn coming_is_latest_at_its_moment(ats: Seq<i128>, now: i128, j: int)
    requires
        is_earliest(ats, now, j),
    ensures
        is_latest(ats, ats[j], j),
{
    assert forall|k: int| j < k < ats.len() && ats[k] <= ats[j] implies #[trigger] ats[k] < ats[j] by {
        if ats[k] > now {
            assert(ats[k] > ats[j]);
        }
    }
}

/// Over one list of occurrences, the mode in force at the moment of the
/// coming transition is that transition's mode.
pub proof fn coming_mode_is_in_force_then(occurrences: Seq<Occurrence>, now: i128)
    ensures
        coming_event(occurrences, now) matches Some(e) ==> mode_in_force(occurrences, nanos_of(e.at)) == Some(e.mode),
{
    if exists|j: int| is_earliest(instants(occurrences), now, j) {
        let ats = instants(occurrences);
        let j = choose|j: int| is_earliest(ats, now, j);
        coming_is_latest_at_its_moment(ats, now, j);
        assert(ats[j] == nanos_of(occurrences[j].0));
        let k = choose|k: int| is_latest(ats, ats[j], k);
        latest_is_unique(ats, ats[j], j, k);
    }
}

proof fn lemma_day_stays_failed(rules: Seq<RuleView>, date: Date, zone: TimeZone, i: int, n: int)
    requires
        0 <= i <= n,
        day_occurrences(rules, date, zone, i) is None,
    ensures
        day_occurrences(rules, date, zone, n) is None,
    decreases n - i,
{
    if i < n {
        lemma_day_stays_failed(rules, date, zone, i + 1, n);
    }
}

proof fn lemma_walk_stays_failed(rules: Seq<RuleView>, now: Zoned, forward: bool, k: int, n: int)
    requires
        0 <= k <= n,
        walk_occurrences(rules, now, forward, k) is None,
    ensures
        walk_occurrences(rules, now, forward, n) is None,
    decreases n - k,
{
    if k < n {
        lemma_walk_stays_failed(rules, now, forward, k + 1, n);
    }
}

/// The days whose flags are set, Monday first, in the week's order.
pub open spec fn flagged_days(flags: Seq<bool>, n: int) -> Seq<Weekday>
    decreases n,
{
    if n <= 0 {
        Seq::empty()
    } else if flags[n - 1] {
        flagged_days(flags, n - 1).push(day_at(n - 1))
    } else {
        flagged_days(flags, n - 1)
    }
}

/// The message for a rule without a time.
pub open spec fn no_time_message(locale: Locale) -> Seq<char> {
    match locale {
        Locale::English => "Choose a time."@,
        Locale::Chinese => "请选择时间。"@,
    }
}

/// The message for a rule without a day.
pub open spec fn no_day_message(locale: Locale) -> Seq<char> {
    match locale {
        Locale::English => "Choose at least one day."@,
        Locale::Chinese => "请至少选择一天。"@,
    }
}

/// For each day of the week, Monday first, whether a list of days holds it.
pub fn day_flags(days: &Vec<Weekday>) -> (r: [bool; 7])
    ensures
        forall|i: int| 0 <= i < 7 ==> #[trigger] r@[i] == days@.contains(day_at(i)),
{
    [
        has_day(days, Weekday::Mon),
        has_day(days, Weekday::Tue),
        has_day(days, Weekday::Wed),
        has_day(days, Weekday::Thu),
        has_day(days, Weekday::Fri),
        has_day(days, Weekday::Sat),
        has_day(days, Weekday::Sun),
    ]
}

/// A rule from what was chosen in the editor: the days flagged (Monday first),
/// the time, and the mode. The time is asked for first, then a day.
pub fn draft_rule(flags: [bool; 7], time: Option<Time>, mode: Mode, locale: Locale) -> (r: Result<Rule, String>)
    ensures
        time is None ==> (r matches Err(e) && e@ == no_time_message(locale)),
        time is Some && flagged_days(flags@, 7).len() == 0 ==> (r matches Err(e) && e@ == no_day_message(locale)),
        time is Some && flagged_days(flags@, 7).len() > 0 ==> (r matches Ok(rule)
            && rule@ == (RuleView { days: flagged_days(flags@, 7), time: time->0, mode })),
{
    let time = match time {
        Some(t) => t,
        None => {
            return Err(match locale {
                Locale::English => String::from_str("Choose a time."),
                Locale::Chinese => String::from_str("请选择时间。"),
            });
        },
    };
    let all = Weekday::all();
    let mut days: Vec<Weekday> = Vec::new();
    let mut i: usize = 0;
    while i < 7
        invariant
            i <= 7,
            all@.len() == 7,
            forall|k: int| 0 <= k < 7 ==> #[trigger] all@[k] == day_at(k),
            days@ == flagged_days(flags@, i as int),
        decreases 7 - i,
    {
        if flags[i] {
            days.push(all[i]);
        }
        i = i + 1;
    }
    if days.len() == 0 {
        return Err(match locale {
            Locale::English => String::from_str("Choose at least one day."),
            Locale::Chinese => String::from_str("请至少选择一天。"),
        });
    }
    Ok(Rule { days, time, mode })
}

impl Schedule {
    /// The schedule with `rule` saved: in place of rule `index`, or added at
    /// the end when `index` is `None`; `None` when `index` is out of range.
    pub fn with_rule(&self, index: Option<usize>, rule: Rule) -> (r: Option<Schedule>)
        ensures
            match index {
                None => r matches Some(s) && s@ == (ScheduleView { rules: self@.rules.push(rule@), ..self@ }),
                Some(i) => if i < self@.rules.len() {
                    r matches Some(s) && s@ == (ScheduleView { rules: self@.rules.update(i as int, rule@), ..self@ })
                } else {
                    r is None
                },
            },
    {
        let mut schedule = self.clone();
        let ghost before = schedule.rules.deep_view();
        match index {
            None => {
                schedule.rules.push(rule);
                assert(schedule.rules.deep_view() =~= before.push(rule@));
                Some(schedule)
            },
            Some(i) => {
                if i < schedule.rules.len() {
                    schedule.rules.set(i, rule);
                    assert(schedule.rules.deep_view() =~= before.update(i as int, rule@));
                    Some(schedule)
                } else {
                    None
                }
            },
        }
    }

    /// The schedule without rule `index`; `None` when there is no such rule.
    pub fn without_rule(&self, index: usize) -> (r: Option<Schedule>)
        ensures
            index < self@.rules.len() ==> (r matches Some(s)
                && s@ == (ScheduleView { rules: self@.rules.remove(index as int), ..self@ })),
            index >= self@.rules.len() ==> r is None,
    {
        let mut schedule = self.clone();
        if index < schedule.rules.len() {
            let ghost before = schedule.rules.deep_view();
            schedule.rules.remove(index);
            assert(schedule.rules.deep_view() =~= before.remove(index as int));
            Some(schedule)
        } else {
            None
        }
    }
}

/// The days flagged for a rule's days, among the first `n` of the week, are
/// exactly the rule's days among them, whatever their order or repeats.
pub proof fn flags_keep_days(days: Seq<Weekday>, flags: Seq<bool>, n: int)
    requires
        0 <= n <= 7,
        flags.len() == 7,
        forall|i: int| 0 <= i < 7 ==> #[trigger] flags[i] == days.contains(day_at(i)),
    ensures
        forall|d: Weekday| #[trigger] flagged_days(flags, n).contains(d) <==> (days.contains(d) && day_index(d) < n),
    decreases n,
{
    if n > 0 {
        flags_keep_days(days, flags, n - 1);
        assert forall|d: Weekday| #[trigger] flagged_days(flags, n).contains(d) <==> (days.contains(d) && day_index(d) < n) by {
            let prev = flagged_days(flags, n - 1);
            if flags[n - 1] {
                assert(flagged_days(flags, n) == prev.push(day_at(n - 1)));
                let next = prev.push(day_at(n - 1));
                if next.contains(d) && !prev.contains(d) {
                    let k = choose|k: int| 0 <= k < next.len() && #[trigger] next[k] == d;
                    if k < prev.len() {
                        assert(prev[k] == d);
                    }
                    assert(k == prev.len());
                }
                if day_index(d) == n - 1 && days.contains(d) {
                    assert(prev.push(day_at(n - 1))[prev.len() as int] == d);
                }
                if prev.contains(d) {
                    let k = choose|k: int| 0 <= k < prev.len() && prev[k] == d;
                    assert(prev.push(day_at(n - 1))[k] == d);
                }
            } else {
                if day_index(d) == n - 1 {
                    assert(day_at(n - 1) == d);
                }
            }
        }
    }
}

/// Days listed in the week's order, Monday first, none twice.
pub open spec fn in_week_order(days: Seq<Weekday>) -> bool {
    forall|a: int, b: int| 0 <= a < b < days.len() ==> day_index(days[a]) < day_index(days[b])
}

proof fn flagged_days_in_week_order(flags: Seq<bool>, n: int)
    requires
        0 <= n <= 7,
    ensures
        in_week_order(flagged_days(flags, n)),
        forall|i: int| 0 <= i < flagged_days(flags, n).len() ==> day_index(#[trigger] flagged_days(flags, n)[i]) < n,
    decreases n,
{
    if n > 0 {
        flagged_days_in_week_order(flags, n - 1);
        let prev = flagged_days(flags, n - 1);
        if flags[n - 1] {
            let next = prev.push(day_at(n - 1));
            assert(next == flagged_days(flags, n));
            assert(day_index(day_at(n - 1)) == n - 1);
            assert forall|a: int, b: int| 0 <= a < b < next.len() implies day_index(next[a]) < day_index(next[b]) by {
                assert(next[a] == prev[a]);
                if b < prev.len() {
                    assert(next[b] == prev[b]);
                }
            }
            assert forall|i: int| 0 <= i < next.len() implies day_index(#[trigger] next[i]) < n by {
                if i < prev.len() {
                    assert(next[i] == prev[i]);
                }
            }
        }
    }
}

proof fn ordered_days_are_equal(s: Seq<Weekday>, t: Seq<Weekday>)
    requires
        in_week_order(s),
        in_week_order(t),
        forall|d: Weekday| s.contains(d) <==> t.contains(d),
    ensures
        s == t,
    decreases s.len(),
{
    if s.len() == 0 {
        if t.len() > 0 {
            assert(t.contains(t[0]));
        }
    } else if t.len() == 0 {
        assert(s.contains(s[0]));
    } else {
        assert(s.contains(s[0]));
        let k = choose|k: int| 0 <= k < t.len() && t[k] == s[0];
        assert(t.contains(t[0]));
        let j = choose|j: int| 0 <= j < s.len() && s[j] == t[0];
        if k > 0 {
            assert(day_index(t[0]) < day_index(t[k]));
            if j > 0 {
                assert(day_index(s[0]) < day_index(s[j]));
            }
        }
        assert(s[0] == t[0]);
        let (s1, t1) = (s.drop_first(), t.drop_first());
        assert forall|a: int, b: int| 0 <= a < b < s1.len() implies day_index(s1[a]) < day_index(s1[b]) by {
            assert(s1[a] == s[a + 1] && s1[b] == s[b + 1]);
        }
        assert forall|a: int, b: int| 0 <= a < b < t1.len() implies day_index(t1[a]) < day_index(t1[b]) by {
            assert(t1[a] == t[a + 1] && t1[b] == t[b + 1]);
        }
        assert forall|d: Weekday| s1.contains(d) <==> t1.contains(d) by {
            if s1.contains(d) {
                let a = choose|a: int| 0 <= a < s1.len() && s1[a] == d;
                assert(s[a + 1] == d && day_index(s[0]) < day_index(s[a + 1]));
                assert(t.contains(d));
                let b = choose|b: int| 0 <= b < t.len() && t[b] == d;
                assert(b != 0);
                assert(t1[b - 1] == d);
            }
            if t1.contains(d) {
                let a = choose|a: int| 0 <= a < t1.len() && t1[a] == d;
                assert(t[a + 1] == d && day_index(t[0]) < day_index(t[a + 1]));
                assert(s.contains(d));
                let b = choose|b: int| 0 <= b < s.len() && s[b] == d;
                assert(b != 0);
                assert(s1[b - 1] == d);
            }
        }
        ordered_days_are_equal(s1, t1);
        assert(s =~= seq![s[0]] + s1);
        assert(t =~= seq![t[0]] + t1);
    }
}

/// The days flagged for a list of days in the week's order, without repeats,
/// are that list again.
pub proof fn flags_give_back_ordered_days(days: Seq<Weekday>, flags: Seq<bool>)
    requires
        in_week_order(days),
        flags.len() == 7,
        forall|i: int| 0 <= i < 7 ==> #[trigger] flags[i] == days.contains(day_at(i)),
    ensures
        flagged_days(flags, 7) == days,
{
    flags_keep_days(days, flags, 7);
    flagged_days_in_week_order(flags, 7);
    assert forall|d: Weekday| flagged_days(flags, 7).contains(d) <==> days.contains(d) by {
        day_index_round_trip(d);
    }
    ordered_days_are_equal(flagged_days(flags, 7), days);
}

} // verus!
