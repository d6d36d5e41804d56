use jiff::civil::date;
use jiff::tz::TimeZone;

use pola::cli::{daemon_flags, invocation, Invocation};
use pola::config::{find_profile, Action, Command, Config, Profile};
use pola::describe::{days, next, summary};
use pola::keys::{combine, mac_key, windows_key, windows_shortcut, Captured, mac_shortcut};
use pola::locale::{current, language_locale, system_locale, Locale};
use pola::mode::Mode;
use pola::schedule::{Event, Weekday};
use pola::shortcut::Shortcut;
use pola::system::{
    add_restore_error, appearance_script, clock_name, collect_errors, launch_command,
    launch_failure, monday_first, registry_mode, registry_value, split_wide,
};
use pola::text::{debug_text, is_blank, join, same_text};

fn named(name: &str) -> Profile {
    Profile { name: name.into(), ..Profile::default() }
}

#[test]
fn toggling_and_labels() {
    assert_eq!(Mode::Light.toggle(), Mode::Dark);
    assert_eq!(Mode::Dark.toggle().toggle(), Mode::Dark);
    assert_eq!(Mode::Dark.label(Locale::English), "Dark");
    assert_eq!(Mode::Light.label(Locale::Chinese), "浅色");
    assert_eq!(Mode::Light.text(), "Light");
    assert_eq!(Mode::default(), Mode::Light);
}

#[test]
fn selected_language_is_read_back() {
    let mut cell = 0u8;
    assert_eq!(current(cell, Locale::Chinese), Locale::Chinese);
    pola::locale::set(&mut cell, Some(Locale::English));
    assert_eq!(current(cell, Locale::Chinese), Locale::English);
    pola::locale::set(&mut cell, Some(Locale::Chinese));
    assert_eq!(current(cell, Locale::English), Locale::Chinese);
    pola::locale::set(&mut cell, None);
    assert_eq!(cell, 0);
    assert_eq!(current(cell, Locale::English), Locale::English);
    assert_eq!(Locale::English.tag(), "en-US");
    assert_eq!(Locale::Chinese.tag(), "zh-CN");
}

#[test]
fn system_language_from_preferences() {
    assert_eq!(language_locale("zh-Hans-CN"), Some(Locale::Chinese));
    assert_eq!(language_locale("zh_TW"), Some(Locale::Chinese));
    assert_eq!(language_locale("en"), Some(Locale::English));
    assert_eq!(language_locale("eng"), None);
    assert_eq!(language_locale("fr-FR"), None);
    assert_eq!(language_locale(""), None);
    assert_eq!(system_locale(&vec!["fr-FR".into(), "zh-Hans".into(), "en-US".into()]), Locale::Chinese);
    assert_eq!(system_locale(&vec!["de".into()]), Locale::English);
    assert_eq!(system_locale(&vec![]), Locale::English);
}

#[test]
fn default_configuration() {
    let config = Config::default();
    assert_eq!(config.shortcut, "ctrl+shift+alt+d");
    assert!(!config.schedule.enabled);
    assert!(!config.schedule.apply_on_launch);
    assert!(config.schedule.rules.is_empty());
    assert!(config.profiles.is_empty());
    assert_eq!(config.language, None);
}

#[test]
fn validation_names_the_first_problem() {
    let mut config = Config::default();
    assert!(config.validate().is_ok());
    config.profiles = vec![named("A"), named("B")];
    assert!(config.validate().is_ok());
    config.profiles = vec![named("A"), named(" \t"), named("A")];
    assert_eq!(config.validate().unwrap_err(), "Enter a configuration name.");
    config.profiles = vec![named("A"), named("B"), named("A"), named("")];
    assert_eq!(config.validate().unwrap_err(), "A configuration named \"A\" already exists.");
    config.profiles = vec![named("\u{3000}")];
    assert_eq!(config.validate().unwrap_err(), "Enter a configuration name.");
    config.profiles = vec![named("say \"hi\""), named("say \"hi\"")];
    assert_eq!(
        config.validate().unwrap_err(),
        "A configuration named \"say \\\"hi\\\"\" already exists."
    );
}

#[test]
fn profiles_by_name() {
    let config = Config { profiles: vec![named("A"), named("B"), named("B")], ..Config::default() };
    assert_eq!(config.profile("B").unwrap().name, "B");
    assert!(config.profile("C").is_none());
    assert_eq!(find_profile(&config.profiles, "B"), Some(1));
}

#[test]
fn editing_profiles() {
    let config = Config { profiles: vec![named("A"), named("B")], ..Config::default() };
    let added = config.with_profile(None, named("C"), Locale::English).unwrap();
    assert_eq!(added.profiles.len(), 3);
    let mut renamed = named("Z");
    renamed.when = vec![Mode::Dark];
    let replaced = added.with_profile(Some("B"), renamed, Locale::English).unwrap();
    assert_eq!(replaced.profiles[1].name, "Z");
    assert_eq!(replaced.profiles[1].when, vec![Mode::Dark]);
    assert_eq!(
        replaced.with_profile(Some("B"), named("Y"), Locale::English).err().unwrap(),
        "This configuration has been removed."
    );
    assert_eq!(
        replaced.with_profile(Some("B"), named("Y"), Locale::Chinese).err().unwrap(),
        "此配置已被删除。"
    );
    let removed = replaced.without_profile("A");
    let names: Vec<_> = removed.profiles.iter().map(|p| p.name.clone()).collect();
    assert_eq!(names, ["Z", "C"]);
}

#[test]
fn moving_profiles() {
    let mut config = Config { profiles: vec![named("A"), named("B"), named("C")], ..Config::default() };
    assert!(config.move_profile(0, 3));
    let names: Vec<_> = config.profiles.iter().map(|p| p.name.clone()).collect();
    assert_eq!(names, ["B", "C", "A"]);
    assert!(config.move_profile(2, 0));
    let names: Vec<_> = config.profiles.iter().map(|p| p.name.clone()).collect();
    assert_eq!(names, ["A", "B", "C"]);
    assert!(config.move_profile(1, 1));
    assert!(!config.move_profile(3, 0));
    assert!(!config.move_profile(0, 4));
    let names: Vec<_> = config.profiles.iter().map(|p| p.name.clone()).collect();
    assert_eq!(names, ["A", "B", "C"]);
}

#[test]
fn clones_are_equal() {
    let profile = Profile {
        name: "n".into(),
        when: vec![Mode::Dark],
        actions: vec![
            Action::Command(Command { program: "p".into(), args: vec!["a".into()], wait: true }),
            Action::Wallpaper { path: "/w".into() },
            Action::Theme { path: "t".into() },
        ],
    };
    let copy = profile.clone();
    assert_eq!(copy.name, "n");
    assert!(matches!(&copy.actions[0], Action::Command(c) if c.args == ["a"] && c.wait));
    assert!(matches!(&copy.actions[1], Action::Wallpaper { path } if path == "/w"));
}

#[test]
fn describing_days() {
    let names: Vec<String> = ["Mon", "Tue", "Wed", "Thu", "Fri", "Sat", "Sun"].map(String::from).into();
    let all = Weekday::all();
    assert_eq!(days(&all, &Ok(names.clone()), Locale::English), Ok("Every day".to_string()));
    assert_eq!(days(&all[..5].to_vec(), &Ok(names.clone()), Locale::Chinese), Ok("工作日".to_string()));
    assert_eq!(days(&vec![Weekday::Sun, Weekday::Sat], &Ok(names.clone()), Locale::English), Ok("Weekends".to_string()));
    assert_eq!(days(&vec![Weekday::Sun, Weekday::Mon], &Ok(names.clone()), Locale::English), Ok("Mon, Sun".to_string()));
    assert_eq!(days(&vec![Weekday::Wed], &Ok(names.clone()), Locale::Chinese), Ok("Wed".to_string()));
    assert_eq!(days(&vec![Weekday::Fri, Weekday::Tue], &Ok(names.clone()), Locale::Chinese), Ok("Tue、Fri".to_string()));
    assert_eq!(days(&vec![], &Ok(names.clone()), Locale::English), Ok("".to_string()));
    assert_eq!(days(&vec![Weekday::Mon], &Err("no names".to_string()), Locale::English), Err("no names".to_string()));
    assert_eq!(days(&all, &Err("no names".to_string()), Locale::English), Ok("Every day".to_string()));
    assert_eq!(summary(&vec![Weekday::Mon], Locale::English), None);
}

#[test]
fn describing_the_next_transition() {
    let names: Vec<String> = ["Mon", "Tue", "Wed", "Thu", "Fri", "Sat", "Sun"].map(String::from).into();
    let event = Event {
        at: date(2024, 6, 19).at(18, 30, 0, 0).to_zoned(TimeZone::UTC).unwrap(),
        mode: Mode::Dark,
    };
    assert_eq!(next(&event, &names, "18:30", Locale::English), "Switch to Dark at Wed 18:30");
    assert_eq!(next(&event, &names, "18:30", Locale::Chinese), "Wed18:30切换为深色");
}

#[test]
fn windows_keys() {
    assert_eq!(windows_key(0x10, false), Ok(None));
    assert_eq!(windows_key(0x5B, false), Ok(None));
    assert_eq!(windows_key(0x44, false), Ok(Some("D".to_string())));
    assert_eq!(windows_key(0x37, false), Ok(Some("7".to_string())));
    assert_eq!(windows_key(0x70, false), Ok(Some("F1".to_string())));
    assert_eq!(windows_key(0x87, false), Ok(Some("F24".to_string())));
    assert_eq!(windows_key(0x63, false), Ok(Some("Numpad3".to_string())));
    assert_eq!(windows_key(0x0D, false), Ok(Some("Enter".to_string())));
    assert_eq!(windows_key(0x0D, true), Ok(Some("NumpadEnter".to_string())));
    assert_eq!(windows_key(0xDE, false), Ok(Some("Quote".to_string())));
    assert_eq!(windows_key(0xB1, false), Ok(Some("MediaTrackPrevious".to_string())));
    assert_eq!(
        windows_key(0x01, false),
        Err("This key cannot be used as a global shortcut.".to_string())
    );
    assert_eq!(combine(true, true, true, true, "KeyD"), "ctrl+alt+shift+super+KeyD");
    assert_eq!(combine(false, true, false, false, "F5"), "alt+F5");
    assert_eq!(windows_shortcut(0x11, false, true, false, false, false), Ok(None));
    assert_eq!(windows_shortcut(0x44, false, true, false, true, false), Ok(Some("shift+control+KeyD".to_string())));
    assert!(windows_shortcut(0x01, false, true, false, false, false).is_err());
}

#[test]
fn mac_keys() {
    let key = |text: &str, numeric: bool| match mac_key(text, numeric) {
        Captured::Key(k) => Some(k),
        _ => None,
    };
    assert!(matches!(mac_key("", false), Captured::Nothing));
    assert!(matches!(mac_key("\u{1b}", false), Captured::Cancel));
    assert_eq!(key("\u{f700}", false).unwrap(), "Up");
    assert_eq!(key("\u{f704}", false).unwrap(), "F1");
    assert_eq!(key("\u{f726}", false).unwrap(), "F35");
    assert_eq!(key("\u{f72d}", false).unwrap(), "PageDown");
    assert_eq!(key(" ", false).unwrap(), "Space");
    assert_eq!(key("\r", false).unwrap(), "Enter");
    assert_eq!(key("\u{7f}", false).unwrap(), "Backspace");
    assert_eq!(key("\u{3}", false).unwrap(), "NumpadEnter");
    assert_eq!(key("5", true).unwrap(), "Numpad5");
    assert_eq!(key("5", false).unwrap(), "5");
    assert_eq!(key("+", true).unwrap(), "NumpadAdd");
    assert_eq!(key("d", false).unwrap(), "d");
}

#[test]
fn parsing_shortcuts() {
    assert_eq!(
        windows_shortcut(0x44, false, true, true, true, false),
        Ok(Some("shift+control+alt+KeyD".to_string()))
    );
    assert_eq!(windows_shortcut(0x70, false, true, false, true, false), Ok(Some("shift+control+F1".to_string())));
    assert_eq!(windows_shortcut(0x44, false, false, true, false, false), Ok(Some("alt+KeyD".to_string())));
    assert_eq!(windows_shortcut(0xA0, false, false, false, true, false), Ok(None));
    let mut shortcut = Shortcut::new();
    assert!(shortcut.register("ctrl+").is_err());
    assert!(shortcut.register("nothing-like-a-key").is_err());
    assert!(!shortcut.matches(0));
}

#[test]
fn empty_shortcut_needs_no_platform() {
    let mut shortcut = Shortcut::new();
    assert!(shortcut.register("").is_ok());
    assert!(!shortcut.matches(0));
    assert!(shortcut.register("not a key").is_err());
    assert!(!Shortcut::default().matches(1));
}

#[test]
fn invocations() {
    let args = |list: &[Option<&str>]| list.iter().map(|a| a.map(String::from)).collect::<Vec<_>>();
    assert!(matches!(invocation(&args(&[])), Ok(Invocation::Window)));
    assert!(matches!(invocation(&args(&[Some("daemon")])), Ok(Invocation::Daemon { ready: false })));
    assert!(matches!(
        invocation(&args(&[Some("daemon"), Some("--ready")])),
        Ok(Invocation::Daemon { ready: true })
    ));
    assert!(matches!(
        invocation(&args(&[Some("run"), Some("Night")])),
        Ok(Invocation::Run { name }) if name == "Night"
    ));
    assert_eq!(
        invocation(&args(&[Some("run"), None])).err().unwrap(),
        "Configuration name must be Unicode."
    );
    assert_eq!(
        invocation(&args(&[Some("daemon"), Some("x")])).err().unwrap(),
        "Usage: pola [daemon | run NAME]"
    );
    assert_eq!(
        invocation(&args(&[None])).err().unwrap(),
        "Usage: pola [daemon | run NAME]"
    );
    assert_eq!(daemon_flags(&args(&[Some("daemon"), Some("--ready"), Some("x")])), (true, true));
    assert_eq!(daemon_flags(&args(&[Some("run")])), (false, false));
}

#[test]
fn platform_helpers() {
    assert_eq!(registry_mode(0), Mode::Dark);
    assert_eq!(registry_mode(1), Mode::Light);
    assert_eq!(registry_mode(registry_value(Mode::Dark)), Mode::Dark);
    assert_eq!(registry_value(Mode::Light), 1);
    assert!(appearance_script(Mode::Dark).ends_with("set dark mode to true"));
    assert_eq!(launch_command("C:\\pola.exe"), "\"C:\\pola.exe\" daemon");
    assert_eq!(collect_errors(&vec![]), Ok(()));
    assert_eq!(collect_errors(&vec!["a".into(), "b".into()]), Err("a\nb".to_string()));
    let names: Vec<String> = ["Sun", "Mon", "Tue", "Wed", "Thu", "Fri", "Sat"].map(String::from).into();
    assert_eq!(monday_first(&names), ["Mon", "Tue", "Wed", "Thu", "Fri", "Sat", "Sun"]);
    assert_eq!(clock_name("1"), "24HourClock");
    assert_eq!(clock_name("0"), "12HourClock");
    assert_eq!(split_wide(&vec![0x65, 0x6e, 0, 0x7a, 0x68, 0, 0]), vec![vec![0x65, 0x6e], vec![0x7a, 0x68]]);
    assert_eq!(split_wide(&vec![0, 0x61]), vec![vec![0x61]]);
    assert!(split_wide(&vec![]).is_empty());
    assert_eq!(launch_failure("e", "r", Locale::English), "e\nLaunch at login: r");
    assert_eq!(launch_failure("e", "r", Locale::Chinese), "e\n登录启动：r");
    let mut shown = String::new();
    add_restore_error(&mut shown, "x");
    assert_eq!(shown, "Could not restore the shortcut: x");
    add_restore_error(&mut shown, "y");
    assert_eq!(shown, "Could not restore the shortcut: x\nCould not restore the shortcut: y");
}

#[test]
fn text_helpers() {
    assert!(is_blank(""));
    assert!(is_blank(" \n\u{a0}"));
    assert!(!is_blank(" a "));
    assert!(same_text("abc", "abc"));
    assert!(!same_text("abc", "abd"));
    assert!(!same_text("ab", "abc"));
    assert_eq!(debug_text("a\"b"), "\"a\\\"b\"");
    assert_eq!(join(&vec!["a".into(), "b".into(), "c".into()], "-"), "a-b-c");
    assert_eq!(join(&vec![], "-"), "");
}

#[test]
fn mac_shortcuts() {
    assert_eq!(mac_shortcut("d", true, false, true, true), Ok("shift+control+meta+KeyD".to_string()));
    assert_eq!(mac_shortcut("F5", false, true, false, false), Ok("alt+F5".to_string()));
    assert!(mac_shortcut("§§", true, false, false, false).is_err());
}
