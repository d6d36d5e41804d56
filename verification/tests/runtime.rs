use jiff::civil::{date, time};
use jiff::tz::TimeZone;
use jiff::Zoned;

use pola::config::{Action, Config, Profile};
use pola::ipc::{answered_at_once, Request, Session, State};
use pola::mode::Mode;
use pola::runtime::{millis_until, must_switch, profiles_for, Runtime};
use pola::schedule::{Rule, Schedule, Weekday};

fn profile(name: &str, when: Vec<Mode>) -> Profile {
    Profile { name: name.into(), when, ..Profile::default() }
}

fn monday_noon() -> Zoned {
    date(2024, 6, 17).at(12, 0, 0, 0).to_zoned(TimeZone::UTC).unwrap()
}

#[test]
fn changes_during_execution_are_consumed() {
    let mut runtime = Runtime::new(Config {
        profiles: vec![Profile {
            name: "Night".into(),
            when: [Mode::Dark].into(),
            ..Profile::default()
        }],
        ..Config::default()
    });
    runtime.set_applied(Some(Mode::Light));
    runtime.set_busy(true);
    assert!(runtime.changed(Mode::Dark).is_none());
    assert_eq!(runtime.applied(), Some(Mode::Dark));
    assert!(runtime.run("Night").is_err());
    runtime.finished();
    assert!(runtime.changed(Mode::Dark).is_none());
    assert!(!runtime.is_busy());
}

#[test]
fn a_new_mode_runs_its_profiles() {
    let mut runtime = Runtime::new(Config {
        profiles: vec![
            profile("Night", vec![Mode::Dark]),
            profile("Day", vec![Mode::Light]),
            profile("Both", vec![Mode::Light, Mode::Dark]),
        ],
        ..Config::default()
    });
    let batch = runtime.changed(Mode::Dark).unwrap();
    let names: Vec<_> = batch.iter().map(|p| p.name.as_str()).collect();
    assert_eq!(names, ["Night", "Both"]);
    assert!(runtime.is_busy());
    assert_eq!(runtime.applied(), Some(Mode::Dark));
    runtime.finished();
    assert!(runtime.changed(Mode::Dark).is_none());
    let batch = runtime.changed(Mode::Light).unwrap();
    assert_eq!(batch.len(), 2);
}

#[test]
fn a_mode_without_profiles_runs_nothing() {
    let mut runtime = Runtime::new(Config {
        profiles: vec![profile("Night", vec![Mode::Dark])],
        ..Config::default()
    });
    assert!(runtime.changed(Mode::Light).is_none());
    assert!(!runtime.is_busy());
    assert_eq!(runtime.applied(), Some(Mode::Light));
}

#[test]
fn runs_by_name() {
    let mut runtime = Runtime::new(Config {
        profiles: vec![profile("Night", vec![Mode::Dark])],
        ..Config::default()
    });
    assert_eq!(runtime.run("Day").err().unwrap(), "Configuration \"Day\" was not found.");
    assert!(!runtime.is_busy());
    let p = runtime.run("Night").unwrap();
    assert_eq!(p.name, "Night");
    assert!(runtime.is_busy());
    assert_eq!(runtime.run("Night").err().unwrap(), "A configuration is already running.");
    runtime.finished();
    assert!(runtime.run("Night").is_ok());
}

#[test]
fn errors_wait_for_the_first_listener() {
    let mut runtime = Runtime::new(Config::default());
    runtime.report("boom".into());
    assert_eq!(runtime.subscribe(3), Some("boom".to_string()));
    assert_eq!(runtime.subscribe(4), None);
    assert_eq!(runtime.peers(), vec![3, 4]);
    runtime.report("later".into());
    assert_eq!(runtime.subscribe(5), None);
    runtime.disconnect(4);
    assert_eq!(runtime.peers(), vec![3, 5]);
    assert_eq!(runtime.subscribe(3), None);
    assert_eq!(runtime.peers(), vec![3, 5]);
}

#[test]
fn closing_a_recording_peer_stops_recording() {
    let mut runtime = Runtime::new(Config { shortcut: String::new(), ..Config::default() });
    runtime.subscribe(1);
    runtime.set_shortcut(1, "").unwrap();
    assert_eq!(runtime.recording(), Some(1));
    assert_eq!(runtime.closed(2), None);
    assert_eq!(runtime.recording(), Some(1));
    assert_eq!(runtime.closed(1), None);
    assert_eq!(runtime.recording(), None);
    assert!(runtime.peers().is_empty());
}

#[test]
fn saving_checks_the_configuration() {
    let mut runtime = Runtime::new(Config::default());
    let bad = Config {
        profiles: vec![profile("A", vec![]), profile("A", vec![])],
        ..Config::default()
    };
    assert_eq!(runtime.save(&bad).err().unwrap(), "A configuration named \"A\" already exists.");
    let good = Config { shortcut: String::new(), profiles: vec![profile("A", vec![])], ..Config::default() };
    runtime.save(&good).unwrap();
    runtime.saved(good);
    assert_eq!(runtime.config.profiles.len(), 1);
    assert_eq!(runtime.recording(), None);
}

#[test]
fn save_failure_keeps_the_error() {
    let mut runtime = Runtime::new(Config { shortcut: String::new(), ..Config::default() });
    assert_eq!(runtime.save_failed("disk full".into()), "disk full");
}

#[test]
fn schedule_plans_and_misses() {
    let mut runtime = Runtime::new(Config {
        schedule: Schedule {
            enabled: true,
            apply_on_launch: true,
            rules: vec![Rule { days: vec![Weekday::Mon], time: time(9, 0, 0, 0), mode: Mode::Dark }],
        },
        ..Config::default()
    });
    let now = monday_noon();
    assert_eq!(runtime.scheduled(&now), Some(Mode::Dark));
    assert_eq!(runtime.launch_mode(&now), Some(Mode::Dark));
    assert!(!runtime.missed(&now));
    let event = runtime.schedule(&now).unwrap();
    assert_eq!(event.mode, Mode::Dark);
    assert_eq!(runtime.next().as_ref().unwrap().at, event.at);
    assert!(!runtime.missed(&now));
    let later = date(2024, 6, 25).at(0, 0, 0, 0).to_zoned(TimeZone::UTC).unwrap();
    assert!(runtime.missed(&later));
    let state: State = runtime.state(&now, Ok(Mode::Light), true);
    assert_eq!(state.mode, Ok(Mode::Light));
    assert!(state.launch_at_login);
    assert!(!state.busy);
    assert_eq!(state.next.unwrap().mode, Mode::Dark);
}

#[test]
fn switching_and_delays() {
    assert!(!must_switch(&Ok(Mode::Dark), Mode::Dark));
    assert!(must_switch(&Ok(Mode::Light), Mode::Dark));
    assert!(must_switch(&Err("unknown".into()), Mode::Dark));
    assert_eq!(millis_until(5_000_000_000, 0), 5000);
    assert_eq!(millis_until(0, 5), 1);
    assert_eq!(millis_until(1_500_000, 0), 1);
    assert_eq!(millis_until(10_000_000_000_000_000_000, 0), u32::MAX);
}

#[test]
fn profiles_for_a_mode_keep_their_order() {
    let profiles = vec![profile("a", vec![Mode::Dark]), profile("b", vec![]), profile("c", vec![Mode::Dark])];
    let found = profiles_for(&profiles, Mode::Dark);
    assert_eq!(found.iter().map(|p| p.name.clone()).collect::<Vec<_>>(), ["a", "c"]);
    assert!(matches!(
        Profile { actions: vec![Action::Color { mode: Mode::Dark }], ..Profile::default() }.actions[0],
        Action::Color { mode: Mode::Dark }
    ));
}

#[test]
fn waiting_runs_are_answered_later() {
    let run = Request::Run { name: "x".into(), wait: true };
    assert!(!answered_at_once(&run, &Ok(())));
    assert!(answered_at_once(&run, &Err("no".into())));
    assert!(answered_at_once(&Request::Run { name: "x".into(), wait: false }, &Ok(())));
    assert!(answered_at_once(&Request::Select(Mode::Dark), &Ok(())));
}

#[test]
fn a_lost_connection_refuses_later_requests() {
    let mut session = Session::new();
    assert!(!session.has_state());
    session.begin().unwrap();
    assert!(session.lost("gone".into()));
    assert_eq!(session.begin(), Err("gone".to_string()));
    assert!(!session.replied(Err("late".into())));
    assert_eq!(session.begin(), Err("gone".to_string()));
}

#[test]
fn replies_answer_the_waiting_request() {
    let mut session = Session::new();
    session.begin().unwrap();
    let state = State {
        config: Config::default(),
        mode: Ok(Mode::Light),
        next: None,
        launch_at_login: false,
        busy: false,
    };
    assert!(session.replied(Ok(state)));
    assert!(session.has_state());
    assert_eq!(session.state().mode, Ok(Mode::Light));
    assert!(!session.replied(Err("rejected".into())));
    session.begin().unwrap();
    assert!(session.replied(Err("rejected".into())));
}

#[test]
fn notifications_and_replies_share_connection() {
    let light = State {
        config: Config::default(),
        mode: Ok(Mode::Light),
        next: None,
        launch_at_login: false,
        busy: false,
    };
    let mut session = Session::new();
    // Subscribing is answered with the state.
    session.begin().unwrap();
    assert!(session.replied(Ok(light.clone())));
    // A notification arrives before the reply to the next request.
    session.begin().unwrap();
    session.heard(light.clone());
    let mut dark = light.clone();
    dark.mode = Ok(Mode::Dark);
    assert!(session.replied(Ok(dark)));
    assert_eq!(session.state().mode, Ok(Mode::Dark));
    // A refused request fails with the reason, and the state stays.
    session.begin().unwrap();
    assert!(session.replied(Err("rejected".into())));
    assert_eq!(session.state().mode, Ok(Mode::Dark));
    // Once the other side is gone, requests fail.
    session.begin().unwrap();
    assert!(session.lost("Connection to pola background process closed".into()));
    assert!(session.begin().is_err());
}
