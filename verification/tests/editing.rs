use pola::config::{modes_from_flags, Action, Command, Profile};
use pola::locale::Locale;
use pola::mode::Mode;

#[test]
fn appearances_stay_ordered() {
    assert_eq!(modes_from_flags(true, true), vec![Mode::Light, Mode::Dark]);
    assert_eq!(modes_from_flags(false, true), vec![Mode::Dark]);
    assert!(modes_from_flags(false, false).is_empty());
    let mut profile = Profile::default();
    profile.set_when(Mode::Dark, true);
    assert_eq!(profile.when, vec![Mode::Dark]);
    profile.set_when(Mode::Light, true);
    assert_eq!(profile.when, vec![Mode::Light, Mode::Dark]);
    profile.set_when(Mode::Light, true);
    assert_eq!(profile.when, vec![Mode::Light, Mode::Dark]);
    profile.set_when(Mode::Dark, false);
    assert_eq!(profile.when, vec![Mode::Light]);
}

#[test]
fn editing_actions() {
    let profile = Profile { name: "p".into(), ..Profile::default() };
    let one = profile.with_action(None, Action::Color { mode: Mode::Dark }, Locale::English).unwrap();
    assert_eq!(one.actions.len(), 1);
    let replaced = one
        .with_action(Some(0), Action::Wallpaper { path: "/a.png".into() }, Locale::English)
        .unwrap();
    assert!(matches!(&replaced.actions[0], Action::Wallpaper { path } if path == "/a.png"));
    assert_eq!(
        replaced.with_action(Some(1), Action::Color { mode: Mode::Light }, Locale::English).err().unwrap(),
        "This action has been removed."
    );
    assert_eq!(
        replaced.with_action(Some(3), Action::Color { mode: Mode::Light }, Locale::Chinese).err().unwrap(),
        "此动作已被删除。"
    );
    let empty = replaced.without_action(0).unwrap();
    assert!(empty.actions.is_empty());
    assert_eq!(empty.name, "p");
    assert!(empty.without_action(0).is_none());
}

#[test]
fn chosen_paths() {
    let mut wallpaper = Action::Wallpaper { path: String::new() };
    wallpaper.set_path("/w.png".into());
    assert!(matches!(&wallpaper, Action::Wallpaper { path } if path == "/w.png"));
    let mut theme = Action::Theme { path: String::new() };
    theme.set_path("dark.theme".into());
    assert!(matches!(&theme, Action::Theme { path } if path == "dark.theme"));
    let mut command = Action::Command(Command { program: "old".into(), args: vec!["x".into()], wait: true });
    command.set_path("new".into());
    assert!(matches!(&command, Action::Command(c) if c.program == "new" && c.args == ["x"] && c.wait));
    let mut color = Action::Color { mode: Mode::Dark };
    color.set_path("ignored".into());
    assert!(matches!(color, Action::Color { mode: Mode::Dark }));
}
