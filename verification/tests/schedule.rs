use jiff::civil::{date, time};
use jiff::tz::TimeZone;
use jiff::Zoned;

use pola::config::Config;
use pola::mode::Mode;
use pola::runtime::{timer_delay, Runtime};
use pola::schedule::{
    day_flags, draft_rule, earliest_index, has_day, latest_index, Rule, Schedule, Weekday,
};
use pola::locale::Locale;

fn at(day: i8, hour: i8, minute: i8) -> Zoned {
    date(2024, 6, day).at(hour, minute, 0, 0).to_zoned(TimeZone::UTC).unwrap()
}

fn rule(days: Vec<Weekday>, hour: i8, minute: i8, mode: Mode) -> Rule {
    Rule { days, time: time(hour, minute, 0, 0), mode }
}

fn schedule(rules: Vec<Rule>) -> Schedule {
    Schedule { enabled: true, apply_on_launch: false, rules }
}

#[test]
fn current_is_the_latest_transition_of_the_day() {
    // 2024-06-17 is a Monday.
    let s = schedule(vec![
        rule(vec![Weekday::Mon], 9, 0, Mode::Dark),
        rule(vec![Weekday::Mon], 18, 0, Mode::Light),
    ]);
    assert_eq!(s.current(&at(17, 12, 0)), Some(Mode::Dark));
    assert_eq!(s.current(&at(17, 20, 0)), Some(Mode::Light));
    assert_eq!(s.current(&at(17, 9, 0)), Some(Mode::Dark));
}

#[test]
fn current_reaches_back_a_week() {
    let s = schedule(vec![rule(vec![Weekday::Sun], 20, 0, Mode::Dark)]);
    assert_eq!(s.current(&at(17, 12, 0)), Some(Mode::Dark));
    let later = schedule(vec![rule(vec![Weekday::Tue], 20, 0, Mode::Light)]);
    // Last Tuesday, six days before.
    assert_eq!(later.current(&at(17, 12, 0)), Some(Mode::Light));
}

#[test]
fn current_without_transitions_is_none() {
    assert_eq!(schedule(vec![]).current(&at(17, 12, 0)), None);
    assert_eq!(schedule(vec![rule(vec![], 9, 0, Mode::Dark)]).current(&at(17, 12, 0)), None);
}

#[test]
fn disabled_schedule_has_no_mode_and_no_event() {
    let mut s = schedule(vec![rule(vec![Weekday::Mon], 9, 0, Mode::Dark)]);
    s.enabled = false;
    assert_eq!(s.current(&at(17, 12, 0)), None);
    assert!(s.next(&at(17, 12, 0)).is_none());
}

#[test]
fn ties_go_to_the_last_rule() {
    let s = schedule(vec![
        rule(vec![Weekday::Mon], 9, 0, Mode::Dark),
        rule(vec![Weekday::Mon], 9, 0, Mode::Light),
    ]);
    assert_eq!(s.current(&at(17, 12, 0)), Some(Mode::Light));
    let event = s.next(&at(17, 8, 0)).unwrap();
    assert_eq!(event.mode, Mode::Light);
    assert_eq!(event.at, at(17, 9, 0));
}

#[test]
fn next_is_the_earliest_coming_transition() {
    let s = schedule(vec![
        rule(vec![Weekday::Mon], 9, 0, Mode::Dark),
        rule(vec![Weekday::Mon], 18, 0, Mode::Light),
    ]);
    let event = s.next(&at(17, 12, 0)).unwrap();
    assert_eq!(event.mode, Mode::Light);
    assert_eq!(event.at, at(17, 18, 0));
    let event = s.next(&at(17, 19, 0)).unwrap();
    assert_eq!(event.mode, Mode::Dark);
    assert_eq!(event.at, at(24, 9, 0));
}

#[test]
fn next_is_strictly_after_now() {
    let s = schedule(vec![rule(vec![Weekday::Mon], 12, 0, Mode::Dark)]);
    let event = s.next(&at(17, 12, 0)).unwrap();
    assert_eq!(event.at, at(24, 12, 0));
}

#[test]
fn latest_and_earliest_indices() {
    let ats = vec![5i128, 10, 10, 20];
    assert_eq!(latest_index(&ats, 15), Some(2));
    assert_eq!(latest_index(&ats, 4), None);
    assert_eq!(latest_index(&ats, 20), Some(3));
    assert_eq!(earliest_index(&ats, 5), Some(2));
    assert_eq!(earliest_index(&ats, 20), None);
    assert_eq!(earliest_index(&ats, 0), Some(0));
}

#[test]
fn weekday_indices() {
    let all = Weekday::all();
    assert_eq!(all.len(), 7);
    for (i, day) in all.iter().enumerate() {
        assert_eq!(day.index() as usize, i);
    }
    assert!(has_day(&vec![Weekday::Sat, Weekday::Sun], Weekday::Sun));
    assert!(!has_day(&vec![Weekday::Sat], Weekday::Sun));
}

#[test]
fn editing_rules() {
    let flags = [true, true, true, true, true, false, false];
    let r = draft_rule(flags, Some(time(7, 30, 0, 0)), Mode::Light, Locale::English).unwrap();
    assert_eq!(r.days, vec![Weekday::Mon, Weekday::Tue, Weekday::Wed, Weekday::Thu, Weekday::Fri]);
    assert_eq!(day_flags(&r.days), flags);
    assert_eq!(
        draft_rule(flags, None, Mode::Light, Locale::English).err().unwrap(),
        "Choose a time."
    );
    assert_eq!(
        draft_rule([false; 7], Some(time(7, 0, 0, 0)), Mode::Light, Locale::Chinese).err().unwrap(),
        "请至少选择一天。"
    );
    let s = schedule(vec![rule(vec![Weekday::Mon], 9, 0, Mode::Dark)]);
    let added = s.with_rule(None, r).unwrap();
    assert_eq!(added.rules.len(), 2);
    assert_eq!(added.rules[1].mode, Mode::Light);
    let replaced = added.with_rule(Some(0), rule(vec![Weekday::Sun], 8, 0, Mode::Light)).unwrap();
    assert_eq!(replaced.rules[0].days, vec![Weekday::Sun]);
    assert!(replaced.with_rule(Some(2), rule(vec![], 8, 0, Mode::Light)).is_none());
    let removed = replaced.without_rule(0).unwrap();
    assert_eq!(removed.rules.len(), 1);
    assert!(removed.without_rule(1).is_none());
}

fn zoned(text: &str) -> Zoned {
    text.parse::<Zoned>().unwrap()
}

#[test]
fn the_transition_in_force_holds_over_night() {
    let all = vec![
        Weekday::Mon, Weekday::Tue, Weekday::Wed, Weekday::Thu, Weekday::Fri, Weekday::Sat, Weekday::Sun,
    ];
    let s = schedule(vec![
        rule(all.clone(), 7, 0, Mode::Light),
        rule(all, 19, 0, Mode::Dark),
    ]);
    assert_eq!(s.current(&zoned("2024-01-10T06:00:00[UTC]")), Some(Mode::Dark));
    assert_eq!(s.current(&zoned("2024-01-10T12:00:00[UTC]")), Some(Mode::Light));
    assert_eq!(s.current(&zoned("2024-01-10T19:00:00[UTC]")), Some(Mode::Dark));
}

#[test]
fn the_next_transition_can_be_a_week_ahead() {
    let s = schedule(vec![rule(vec![Weekday::Mon], 7, 0, Mode::Dark)]);
    let e = s.next(&zoned("2024-01-08T08:00:00[UTC]")).unwrap();
    assert_eq!(e.at, zoned("2024-01-15T07:00:00[UTC]"));
    assert_eq!(e.mode, Mode::Dark);
}

#[test]
fn the_next_transition_is_in_force_at_its_moment() {
    let s = schedule(vec![
        rule(vec![Weekday::Tue, Weekday::Thu], 9, 30, Mode::Dark),
        rule(vec![Weekday::Thu], 9, 30, Mode::Light),
        rule(vec![Weekday::Sat], 22, 0, Mode::Dark),
    ]);
    let e = s.next(&zoned("2024-01-10T12:00:00[UTC]")).unwrap();
    assert_eq!(e.mode, Mode::Light);
    assert_eq!(s.current(&e.at), Some(e.mode));
}

#[test]
fn missed_transitions_are_found() {
    let mut config = Config::default();
    config.schedule = schedule(vec![rule(vec![Weekday::Wed], 18, 0, Mode::Dark)]);
    let mut runtime = Runtime::new(config);
    let before = zoned("2024-01-10T12:00:00[UTC]");
    assert!(!runtime.missed(&before));
    let planned = runtime.schedule(&before).unwrap();
    assert!(!runtime.missed(&before));
    assert!(runtime.missed(&zoned("2024-01-10T18:00:00[UTC]")));
    assert_eq!(timer_delay(&planned, &before), 6 * 3600 * 1000);
    assert_eq!(runtime.scheduled(&zoned("2024-01-10T18:30:00[UTC]")), Some(Mode::Dark));
}
