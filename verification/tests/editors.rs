use jiff::civil::time;

use pola::action_editor::{dropped_file, ActionEditor};
use pola::config::{Action, Command, Profile};
use pola::keys::mac_title;
use pola::system::labelled;
use pola::describe::{caption, detail};
use pola::locale::Locale;
use pola::main_window::{picked_appearance, save_config_error, MainWindow, Page};
use pola::mode::Mode;
use pola::profile_editor::{key_position, ProfileEditor};
use pola::recorder::{route_key, KeyRoute, ShortcutSettings};
use pola::schedule::{Rule, Schedule, Weekday};
use pola::schedule_editor::{form_rule, ScheduleEditor};

fn command(args: &[&str]) -> Action {
    Action::Command(Command {
        program: "prog".into(),
        args: args.iter().map(|a| a.to_string()).collect(),
        wait: false,
    })
}

fn profile(actions: Vec<Action>) -> Profile {
    Profile { name: "work".into(), when: vec![Mode::Dark], actions }
}

fn args_of(action: &Action) -> Vec<String> {
    match action {
        Action::Command(c) => c.args.clone(),
        _ => panic!("not a command"),
    }
}

#[test]
fn schedule_editor_saves_a_new_rule() {
    let schedule = Schedule { enabled: true, apply_on_launch: false, rules: vec![] };
    let mut editor = ScheduleEditor::new(schedule);
    assert!(editor.save(Locale::English).is_none());
    editor.add();
    let draft = editor.draft.as_ref().unwrap();
    assert_eq!(draft.days, [true, true, true, true, true, false, false]);
    assert_eq!(draft.mode, Mode::Dark);
    assert!(editor.save(Locale::English).is_none());
    assert_eq!(editor.error, "Choose a time.");
    editor.set_time(7 * 60 + 30);
    assert!(editor.error.is_empty());
    assert_eq!(editor.draft.as_ref().unwrap().time, Some(time(7, 30, 0, 0)));
    for day in 0..7 {
        editor.set_day(day, false);
    }
    assert!(editor.save(Locale::Chinese).is_none());
    assert_eq!(editor.error, "请至少选择一天。");
    editor.set_day(2, true);
    editor.set_day(6, true);
    editor.set_day(9, true);
    editor.set_mode(Some(0));
    let saved = editor.save(Locale::English).unwrap();
    assert!(editor.error.is_empty());
    assert_eq!(saved.rules.len(), 1);
    assert_eq!(saved.rules[0].days, vec![Weekday::Wed, Weekday::Sun]);
    assert_eq!(saved.rules[0].time, time(7, 30, 0, 0));
    assert_eq!(saved.rules[0].mode, Mode::Light);
    editor.show(saved, true);
    assert!(editor.draft.is_none());
    assert_eq!(editor.schedule.rules.len(), 1);
}

#[test]
fn schedule_editor_edits_and_removes_a_rule() {
    let rule = Rule { days: vec![Weekday::Mon, Weekday::Fri], time: time(20, 0, 0, 0), mode: Mode::Dark };
    let schedule = Schedule { enabled: false, apply_on_launch: true, rules: vec![rule] };
    let mut editor = ScheduleEditor::new(schedule);
    editor.open(3);
    assert!(editor.draft.is_none());
    editor.open(0);
    let draft = editor.draft.as_ref().unwrap();
    assert_eq!(draft.index, Some(0));
    assert_eq!(draft.days, [true, false, false, false, true, false, false]);
    assert_eq!(draft.time, Some(time(20, 0, 0, 0)));
    editor.set_time(25 * 60);
    assert!(!editor.error.is_empty());
    assert_eq!(editor.draft.as_ref().unwrap().time, Some(time(20, 0, 0, 0)));
    editor.set_time(23 * 60 + 59);
    assert!(editor.error.is_empty());
    let saved = editor.save(Locale::English).unwrap();
    assert_eq!(saved.rules[0].time, time(23, 59, 0, 0));
    assert_eq!(saved.rules[0].days, vec![Weekday::Mon, Weekday::Fri]);
    assert!(!saved.enabled && saved.apply_on_launch);
    let removed = editor.remove().unwrap();
    assert!(removed.rules.is_empty());
    editor.close(Some(1));
    assert!(editor.draft.is_some());
    editor.close(Some(0));
    assert!(editor.draft.is_none());
    assert!(editor.remove().is_none());
    editor.add();
    assert!(editor.remove().is_none());
    editor.cancel();
    assert!(editor.draft.is_none());
    let switched = editor.with_enabled(true);
    assert!(switched.enabled && switched.apply_on_launch);
    let launch = editor.with_apply_on_launch(false);
    assert!(!launch.enabled && !launch.apply_on_launch);
    editor.failed("disk full".into());
    assert_eq!(editor.error, "disk full");
    editor.clear_error();
    assert!(editor.error.is_empty());
}

#[test]
fn schedule_editor_save_fails_for_a_rule_that_is_gone() {
    let rule = Rule { days: vec![Weekday::Tue], time: time(6, 0, 0, 0), mode: Mode::Light };
    let mut editor = ScheduleEditor::new(Schedule { enabled: true, apply_on_launch: false, rules: vec![rule] });
    editor.open(0);
    editor.show(Schedule { enabled: true, apply_on_launch: false, rules: vec![] }, false);
    assert!(editor.draft.is_some());
    assert!(editor.save(Locale::English).is_none());
    assert!(editor.error.is_empty());
}

#[test]
fn profile_editor_keys_rows() {
    let editor = ProfileEditor::new(Some("work".into()), profile(vec![command(&[]), Action::Color { mode: Mode::Light }]));
    assert_eq!(editor.keys, vec![0, 1]);
    assert_eq!(editor.next, 2);
    assert_eq!(editor.name, "work");
    assert_eq!(key_position(&vec![4, 7, 9], 9), Some(2));
    assert_eq!(key_position(&vec![4, 7, 9], 5), None);
}

#[test]
fn profile_editor_commits_a_changed_name() {
    let mut editor = ProfileEditor::new(Some("work".into()), profile(vec![]));
    assert!(editor.commit_name().is_none());
    editor.name = "home".into();
    let renamed = editor.commit_name().unwrap();
    assert_eq!(renamed.name, "home");
    assert_eq!(renamed.when, vec![Mode::Dark]);
    editor.saved(renamed);
    assert_eq!(editor.key.as_deref(), Some("home"));
    let mut fresh = ProfileEditor::new(None, Profile::default());
    fresh.name = "new".into();
    assert!(fresh.commit_name().is_none());
    let created = fresh.create();
    assert_eq!(created.name, "new");
    assert!(created.actions.is_empty() && created.when.is_empty());
}

#[test]
fn profile_editor_edits_removes_and_reloads_actions() {
    let mut editor = ProfileEditor::new(
        Some("work".into()),
        profile(vec![command(&["a"]), Action::Color { mode: Mode::Light }, command(&["c"])]),
    );
    editor.edit(1);
    assert!(matches!(&editor.editing, Some((Some(1), Action::Color { mode: Mode::Light }))));
    assert!(!editor.back());
    assert!(editor.back());
    editor.edit(8);
    assert!(editor.editing.is_none());
    let (index, without) = editor.remove(1).unwrap();
    assert_eq!(index, 1);
    assert_eq!(without.actions.len(), 2);
    editor.removed(index, without);
    assert_eq!(editor.keys, vec![0, 2]);
    assert!(editor.remove(1).is_none());
    editor.add(Action::Theme { path: String::new() });
    assert!(matches!(&editor.editing, Some((None, Action::Theme { .. }))));
    let mut stored = editor.profile.clone();
    stored.actions.push(Action::Color { mode: Mode::Dark });
    stored.actions.push(Action::Color { mode: Mode::Light });
    editor.close_action(Some(stored));
    assert!(editor.editing.is_none());
    assert_eq!(editor.keys, vec![0, 2, 3, 4]);
    assert_eq!(editor.next, 5);
    editor.close_action(None);
    assert_eq!(editor.profile.actions.len(), 4);
    let changed = editor.set_when(Mode::Light, true);
    assert_eq!(changed.when, vec![Mode::Light, Mode::Dark]);
    assert_eq!(editor.when, vec![Mode::Light, Mode::Dark]);
    assert_eq!(editor.profile.when, vec![Mode::Dark]);
    editor.failed("busy".into());
    assert_eq!(editor.error, "busy");
}

#[test]
fn profile_editor_reorders_rows_by_their_last_tag() {
    let editor = ProfileEditor::new(
        Some("work".into()),
        profile(vec![command(&["a"]), command(&["b"]), command(&["c"])]),
    );
    let (keys, moved) = editor.reorder(&vec![2, 0, 1]);
    assert_eq!(keys, vec![2, 0, 1]);
    assert_eq!(args_of(&moved.actions[0]), vec!["c"]);
    assert_eq!(args_of(&moved.actions[1]), vec!["a"]);
    assert_eq!(args_of(&moved.actions[2]), vec!["b"]);
    let (keys, _) = editor.reorder(&vec![1, 2, 9, 1, 0]);
    assert_eq!(keys, vec![2, 1, 0]);
    let mut editor = editor;
    let (keys, moved) = editor.reorder(&vec![1, 0, 2]);
    editor.reordered(keys, moved);
    assert_eq!(editor.keys, vec![1, 0, 2]);
    assert_eq!(args_of(&editor.profile.actions[0]), vec!["b"]);
    assert!(editor.error.is_empty());
}

#[test]
fn dropped_files() {
    assert_eq!(dropped_file(None, false, Locale::English).err().unwrap(), "Drop a file from File Explorer.");
    assert_eq!(
        dropped_file(Some(vec!["a".into(), "b".into()]), true, Locale::English).err().unwrap(),
        "Drop one file at a time."
    );
    assert_eq!(dropped_file(Some(vec![]), true, Locale::Chinese).err().unwrap(), "每次请拖入一个文件。");
    assert_eq!(
        dropped_file(Some(vec!["dir".into()]), false, Locale::English).err().unwrap(),
        "The dropped item must be a file."
    );
    assert_eq!(dropped_file(Some(vec!["C:/a.png".into()]), true, Locale::English).unwrap(), "C:/a.png");
}

#[test]
fn action_editor_keeps_argument_keys() {
    let mut editor = ActionEditor::new("work".into(), Some(0), command(&["x", "y"]));
    assert_eq!(editor.keys, vec![0, 1]);
    editor.add_argument();
    assert_eq!(editor.keys, vec![0, 1, 2]);
    assert_eq!(editor.focus, Some(2));
    assert_eq!(args_of(&editor.draft), vec!["x", "y", ""]);
    editor.argument(2, "z".into());
    editor.argument(7, "never".into());
    assert_eq!(args_of(&editor.draft), vec!["x", "y", "z"]);
    editor.remove_argument(1);
    assert_eq!(editor.keys, vec![0, 2]);
    assert_eq!(editor.focus, Some(2));
    assert_eq!(args_of(&editor.draft), vec!["x", "z"]);
    editor.remove_argument(2);
    assert_eq!(editor.focus, Some(0));
    editor.remove_argument(0);
    assert_eq!(editor.focus, None);
    assert!(editor.keys.is_empty());
    editor.focused(false, Locale::English);
    assert_eq!(editor.error, "Could not focus the input.");
    editor.wait(true);
    assert!(editor.error.is_empty());
    assert!(matches!(&editor.draft, Action::Command(c) if c.wait && c.args.is_empty()));
}

#[test]
fn action_editor_paths_colors_and_saving() {
    let mut editor = ActionEditor::new("work".into(), None, Action::Wallpaper { path: String::new() });
    editor.image_failed();
    assert!(editor.preview_failed);
    editor.path("/w.png".into());
    assert!(!editor.preview_failed);
    assert!(matches!(&editor.draft, Action::Wallpaper { path } if path == "/w.png"));
    editor.picked(Err("denied".into()));
    assert_eq!(editor.error, "denied");
    editor.picked(Ok(None));
    assert!(editor.error.is_empty());
    editor.picked(Ok(Some("/x.png".into())));
    assert!(matches!(&editor.draft, Action::Wallpaper { path } if path == "/x.png"));
    editor.dropped(Err("Drop one file at a time.".into()));
    assert_eq!(editor.error, "Drop one file at a time.");
    editor.dropped(Ok("/y.png".into()));
    assert!(matches!(&editor.draft, Action::Wallpaper { path } if path == "/y.png"));
    editor.picker(false, Locale::Chinese);
    assert_eq!(editor.error, "无法打开文件选择器。");
    editor.picker(true, Locale::Chinese);
    assert!(editor.error.is_empty());
    assert_eq!(
        editor.save(None, Locale::English).err().unwrap(),
        "This configuration has been removed."
    );
    let stored = profile(vec![Action::Color { mode: Mode::Dark }]);
    let saved = editor.save(Some(stored.clone()), Locale::English).unwrap();
    assert_eq!(saved.actions.len(), 2);
    assert!(matches!(&saved.actions[1], Action::Wallpaper { path } if path == "/y.png"));
    editor.color(Some(0));
    assert!(matches!(editor.draft, Action::Color { mode: Mode::Light }));
    editor.color(Some(4));
    assert!(matches!(editor.draft, Action::Color { mode: Mode::Dark }));
    editor.color(None);
    assert!(matches!(editor.draft, Action::Color { mode: Mode::Dark }));
    let mut replacing = ActionEditor::new("work".into(), Some(3), Action::Color { mode: Mode::Light });
    assert_eq!(
        replacing.save(Some(stored), Locale::English).err().unwrap(),
        "This action has been removed."
    );
    replacing.failed("nope".into());
    assert_eq!(replacing.error, "nope");
}

#[test]
fn shortcut_recording() {
    let mut settings = ShortcutSettings::new();
    settings.pressed(Ok(Some("ctrl+KeyA".into())));
    assert!(settings.pending.is_none());
    settings.record(Err("in use".into()));
    assert!(!settings.recording);
    assert_eq!(settings.error, "in use");
    settings.record(Ok(()));
    assert!(settings.recording && settings.error.is_empty());
    assert!(settings.released().is_none());
    settings.pressed(Ok(Some("ctrl+KeyA".into())));
    settings.pressed(Ok(None));
    assert_eq!(settings.pending.as_deref(), Some("ctrl+KeyA"));
    settings.pressed(Err("This key cannot be used as a global shortcut.".into()));
    assert!(settings.pending.is_none());
    assert_eq!(settings.error, "This key cannot be used as a global shortcut.");
    settings.pressed(Ok(Some("alt+KeyB".into())));
    assert_eq!(settings.released().as_deref(), Some("alt+KeyB"));
    assert!(settings.pending.is_none());
    settings.stored(Err("cannot save".into()));
    assert!(settings.recording);
    settings.restored(Err("taken".into()));
    assert_eq!(settings.error, "cannot save\nCould not restore the shortcut: taken");
    settings.restored(Ok(()));
    assert!(!settings.recording);
    settings.record(Ok(()));
    settings.focus_failed();
    assert_eq!(settings.error, "Could not focus the shortcut recorder.");
    settings.launch(Ok(()));
    assert!(settings.error.is_empty());
    settings.stored(Ok(()));
    assert!(!settings.recording);
    settings.removed(Err("gone".into()));
    assert_eq!(settings.error, "gone");
}

#[test]
fn restore_failure_alone() {
    let mut settings = ShortcutSettings::new();
    settings.record(Ok(()));
    settings.restored(Err("taken".into()));
    assert_eq!(settings.error, "Could not restore the shortcut: taken");
}

#[test]
fn main_window_pages() {
    let mut window = MainWindow::new(Ok(Mode::Light));
    assert!(matches!(window.page, Page::Appearance) && window.pane_open);
    window.navigate(Some("profiles"));
    assert!(matches!(window.page, Page::Profiles));
    window.navigate(None);
    assert!(matches!(window.page, Page::Profiles));
    window.navigate(Some("settings"));
    assert!(matches!(window.page, Page::Settings));
    window.navigate(Some("schedule"));
    assert!(matches!(window.page, Page::Schedule));
    window.navigate(Some("elsewhere"));
    assert!(matches!(window.page, Page::Appearance));
    window.edit(Some("gone".into()), None, Locale::English);
    assert!(matches!(window.page, Page::Appearance));
    assert_eq!(window.status, "This configuration has been removed.");
    window.edit(Some("work".into()), Some(profile(vec![])), Locale::English);
    assert!(matches!(&window.page, Page::Profile { name: Some(n), profile } if n == "work" && profile.name == "work"));
    window.edit(None, None, Locale::English);
    assert!(matches!(&window.page, Page::Profile { name: None, profile } if profile.name.is_empty()));
    window.back();
    assert!(matches!(window.page, Page::Profiles));
    window.ran(Err("A configuration is already running.".into()));
    assert_eq!(window.status, "A configuration is already running.");
    window.ran(Ok(()));
    assert!(window.status.is_empty());
    window.pane(None);
    assert!(!window.pane_open);
    window.pane(Some(true));
    assert!(window.pane_open);
    window.activated(false, Err("unreadable".into()), Locale::Chinese);
    assert_eq!(window.status, "无法激活窗口。");
    assert!(window.mode.is_err());
    window.changed(Ok(Mode::Dark));
    assert_eq!(window.mode, Ok(Mode::Dark));
    assert_eq!(picked_appearance(1), Mode::Dark);
    assert_eq!(picked_appearance(0), Mode::Light);
}

#[test]
fn reopened_rule_saves_unchanged() {
    let ordered = Rule { days: vec![Weekday::Tue, Weekday::Sat], time: time(8, 15, 0, 0), mode: Mode::Light };
    let schedule = Schedule { enabled: true, apply_on_launch: true, rules: vec![ordered] };
    let mut editor = ScheduleEditor::new(schedule);
    editor.open(0);
    let saved = editor.save(Locale::English).unwrap();
    assert_eq!(saved.rules[0].days, vec![Weekday::Tue, Weekday::Sat]);
    assert_eq!(saved.rules[0].time, time(8, 15, 0, 0));
    assert_eq!(saved.rules[0].mode, Mode::Light);
    // Days out of the week's order come back in order.
    let unordered = Rule { days: vec![Weekday::Fri, Weekday::Mon, Weekday::Fri], time: time(8, 15, 0, 0), mode: Mode::Dark };
    let mut editor = ScheduleEditor::new(Schedule { enabled: true, apply_on_launch: false, rules: vec![unordered] });
    editor.open(0);
    let saved = editor.save(Locale::English).unwrap();
    assert_eq!(saved.rules[0].days, vec![Weekday::Mon, Weekday::Fri]);
}

#[test]
fn rule_forms_open_with_a_rule() {
    let rule = Rule { days: vec![Weekday::Sun], time: time(5, 5, 0, 0), mode: Mode::Light };
    let opened = form_rule(&vec![rule], Some(0));
    assert_eq!(opened.days, vec![Weekday::Sun]);
    assert_eq!(opened.time, time(5, 5, 0, 0));
    let fresh = form_rule(&vec![], None);
    assert_eq!(fresh.days, vec![Weekday::Mon, Weekday::Tue, Weekday::Wed, Weekday::Thu, Weekday::Fri]);
    assert_eq!(fresh.time, time(18, 0, 0, 0));
    assert_eq!(fresh.mode, Mode::Dark);
}

#[test]
fn failed_saves_tell_both_errors() {
    assert_eq!(save_config_error("disk full".into(), None, Locale::English), "disk full");
    assert_eq!(
        save_config_error("disk full".into(), Some("denied".into()), Locale::English),
        "disk full\nLaunch at login: denied"
    );
    assert_eq!(
        save_config_error("磁盘已满".into(), Some("拒绝".into()), Locale::Chinese),
        "磁盘已满\n登录启动：拒绝"
    );
}

#[test]
fn rule_captions() {
    assert_eq!(
        caption(Ok("Weekdays".into()), Ok("7:30 AM".into()), Mode::Dark, Locale::English),
        "Weekdays at 7:30 AM, switch to Dark"
    );
    assert_eq!(
        caption(Ok("工作日".into()), Ok("07:30".into()), Mode::Light, Locale::Chinese),
        "工作日07:30切换为浅色"
    );
    assert_eq!(
        caption(Err("no names".into()), Err("no clock".into()), Mode::Light, Locale::English),
        "no names"
    );
    assert_eq!(
        caption(Ok("Mon".into()), Err("no clock".into()), Mode::Light, Locale::English),
        "no clock"
    );
    assert_eq!(detail(Ok("Weekends".into()), Mode::Light, Locale::English), "Weekends, Light");
    assert_eq!(detail(Err("no names".into()), Mode::Dark, Locale::Chinese), "no names，深色");
}

#[test]
fn view_decisions() {
    let mut editor = ProfileEditor::new(None, Profile::default());
    assert!(!editor.can_create());
    editor.name = " \t".into();
    assert!(!editor.can_create());
    editor.name = "Night".into();
    assert!(editor.can_create());
    let mut schedule_editor = ScheduleEditor::new(Schedule { enabled: true, apply_on_launch: false, rules: vec![] });
    assert!(!schedule_editor.can_save());
    schedule_editor.add();
    assert!(!schedule_editor.can_save());
    schedule_editor.set_time(60);
    assert!(schedule_editor.can_save());
    for day in 0..7 {
        schedule_editor.set_day(day, false);
    }
    assert!(!schedule_editor.can_save());
}

#[test]
fn recorder_titles_and_labelled_errors() {
    assert_eq!(mac_title(""), "Record shortcut…");
    assert_eq!(mac_title("ctrl+shift+alt+KeyD"), "⌃⇧⌥D");
    assert_eq!(mac_title("super+Digit1"), "⌘1");
    assert_eq!(mac_title("control+meta+Space"), "⌃⌘SPACE");
    assert_eq!(labelled("Night", "no such file"), "Night: no such file");
}

#[test]
fn recorder_key_routes() {
    assert!(matches!(route_key(0x09, false, false, true, false), KeyRoute::Pass));
    assert!(matches!(route_key(0x09, true, false, false, false), KeyRoute::Press));
    assert!(matches!(route_key(0x1B, false, false, false, false), KeyRoute::Cancel));
    assert!(matches!(route_key(0x1B, false, false, true, false), KeyRoute::Press));
    assert!(matches!(route_key(0x44, true, false, false, false), KeyRoute::Press));
}

#[test]
fn main_window_view_decisions() {
    let mut window = MainWindow::new(Err("unreadable".into()));
    assert_eq!(window.error_text(), "unreadable");
    window.changed(Ok(Mode::Dark));
    window.ran(Err("busy".into()));
    assert_eq!(window.error_text(), "busy");
    assert_eq!(window.selected_tag(), "appearance");
    assert!(!window.back_visible());
    window.edit(None, None, Locale::English);
    assert_eq!(window.selected_tag(), "profiles");
    assert!(window.back_visible());
    window.navigate(Some("settings"));
    assert_eq!(window.selected_tag(), "settings");
}
