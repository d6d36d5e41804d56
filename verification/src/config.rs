use vstd::prelude::*;

use crate::locale::Locale;
use crate::mode::Mode;
use crate::schedule::{Schedule, ScheduleView};
use crate::text::{blank, debug_str, debug_text, is_blank, same_text};

verus! {

/// A program to start, with its arguments exactly as the process receives them.
pub struct Command {
    pub program: String,
    pub args: Vec<String>,
    pub wait: bool,
}

/// One step of a configuration.
pub enum Action {
    /// Switch the system appearance.
    Color { mode: Mode },
    /// Apply a theme file.
    Theme { path: String },
    /// Set the desktop picture.
    Wallpaper { path: String },
    /// Start a program.
    Command(Command),
}

/// A named list of actions, run when switching to one of the `when` appearances
/// or on request.
pub struct Profile {
    pub name: String,
    pub when: Vec<Mode>,
    pub actions: Vec<Action>,
}

/// Everything the user configures.
pub struct Config {
    pub shortcut: String,
    pub schedule: Schedule,
    pub profiles: Vec<Profile>,
    pub language: Option<Locale>,
}

/// A command as plain values.
pub struct CommandView {
    pub program: Seq<char>,
    pub args: Seq<Seq<char>>,
    pub wait: bool,
}

/// An action as plain values.
pub enum ActionView {
    Color { mode: Mode },
    Theme { path: Seq<char> },
    Wallpaper { path: Seq<char> },
    Command(CommandView),
}

/// A profile as plain values.
pub struct ProfileView {
    pub name: Seq<char>,
    pub when: Seq<Mode>,
    pub actions: Seq<ActionView>,
}

/// A configuration as plain values.
pub struct ConfigView {
    pub shortcut: Seq<char>,
    pub schedule: ScheduleView,
    pub profiles: Seq<ProfileView>,
    pub language: Option<Locale>,
}

impl View for Command {
    type V = CommandView;

    open spec fn view(&self) -> CommandView {
        CommandView { program: self.program@, args: self.args.deep_view(), wait: self.wait }
    }
}

impl View for Action {
    type V = ActionView;

    open spec fn view(&self) -> ActionView {
        match self {
            Action::Color { mode } => ActionView::Color { mode: *mode },
            Action::Theme { path } => ActionView::Theme { path: path@ },
            Action::Wallpaper { path } => ActionView::Wallpaper { path: path@ },
            Action::Command(command) => ActionView::Command(command@),
        }
    }
}

impl DeepView for Action {
    type V = ActionView;

    open spec fn deep_view(&self) -> ActionView {
        self@
    }
}

impl View for Profile {
    type V = ProfileView;

    open spec fn view(&self) -> ProfileView {
        ProfileView { name: self.name@, when: self.when@, actions: self.actions.deep_view() }
    }
}

impl DeepView for Profile {
    type V = ProfileView;

    open spec fn deep_view(&self) -> ProfileView {
        self@
    }
}

impl View for Config {
    type V = ConfigView;

    open spec fn view(&self) -> ConfigView {
        ConfigView {
            shortcut: self.shortcut@,
            schedule: self.schedule@,
            profiles: self.profiles.deep_view(),
            language: self.language,
        }
    }
}

impl Clone for Command {
    fn clone(&self) -> (r: Self)
        ensures
            r@ == self@,
    {
        let args = self.args.clone();
        assert forall|i: int| 0 <= i < args@.len() implies args@[i] == self.args@[i] by {
            assert(cloned::<String>(self.args[i], args[i]));
        }
        assert(args.deep_view() =~= self.args.deep_view());
        Command { program: self.program.clone(), args, wait: self.wait }
    }
}

impl Clone for Action {
    fn clone(&self) -> (r: Self)
        ensures
            r@ == self@,
    {
        match self {
            Action::Color { mode } => Action::Color { mode: *mode },
            Action::Theme { path } => Action::Theme { path: path.clone() },
            Action::Wallpaper { path } => Action::Wallpaper { path: path.clone() },
            Action::Command(command) => Action::Command(command.clone()),
        }
    }
}

impl Clone for Profile {
    fn clone(&self) -> (r: Self)
        ensures
            r@ == self@,
    {
        let when = self.when.clone();
        assert forall|i: int| 0 <= i < when@.len() implies when@[i] == self.when@[i] by {
            assert(cloned::<Mode>(self.when[i], when[i]));
        }
        assert(when@ =~= self.when@);
        let actions = self.actions.clone();
        assert forall|i: int| 0 <= i < actions@.len() implies actions@[i]@ == self.actions@[i]@ by {
            assert(cloned::<Action>(self.actions[i], actions[i]));
        }
        assert(actions.deep_view() =~= self.actions.deep_view());
        Profile { name: self.name.clone(), when, actions }
    }
}

impl Clone for Config {
    fn clone(&self) -> (r: Self)
        ensures
            r@ == self@,
    {
        let profiles = self.profiles.clone();
        assert forall|i: int| 0 <= i < profiles@.len() implies profiles@[i]@ == self.profiles@[i]@ by {
            assert(cloned::<Profile>(self.profiles[i], profiles[i]));
        }
        assert(profiles.deep_view() =~= self.profiles.deep_view());
        Config {
            shortcut: self.shortcut.clone(),
            schedule: self.schedule.clone(),
            profiles,
            language: self.language,
        }
    }
}

impl Default for Profile {
    fn default() -> (r: Self)
        ensures
            r@ == (ProfileView { name: Seq::empty(), when: Seq::empty(), actions: Seq::empty() }),
    {
        let actions: Vec<Action> = Vec::new();
        assert(actions.deep_view() =~= Seq::<ActionView>::empty());
        Profile { name: String::new(), when: Vec::new(), actions }
    }
}

/// The shortcut a new configuration starts with.
pub open spec fn default_shortcut() -> Seq<char> {
    "ctrl+shift+alt+d"@
}

impl Default for Config {
    fn default() -> (r: Self)
        ensures
            r@.shortcut == default_shortcut(),
            r@.schedule == (ScheduleView { enabled: false, apply_on_launch: false, rules: Seq::empty() }),
            r@.profiles == Seq::<ProfileView>::empty(),
            r@.language is None,
    {
        let profiles: Vec<Profile> = Vec::new();
        assert(profiles.deep_view() =~= Seq::<ProfileView>::empty());
        Config {
            shortcut: String::from_str("ctrl+shift+alt+d"),
            schedule: Schedule::default(),
            profiles,
            language: None,
        }
    }
}

/// Profile `i` has a blank name, or the name of an earlier profile.
pub open spec fn problem_at(profiles: Seq<ProfileView>, i: int) -> bool {
    ||| blank(profiles[i].name)
    ||| exists|j: int| 0 <= j < i && #[trigger] profiles[j].name == profiles[i].name
}

/// Every profile has a name that is not blank and that no other profile has.
pub open spec fn valid_profiles(profiles: Seq<ProfileView>) -> bool {
    forall|i: int| 0 <= i < profiles.len() ==> !#[trigger] problem_at(profiles, i)
}

/// Profile `i` is the first with a problem.
pub open spec fn first_problem(profiles: Seq<ProfileView>, i: int) -> bool {
    &&& 0 <= i < profiles.len()
    &&& problem_at(profiles, i)
    &&& forall|k: int| 0 <= k < i ==> !#[trigger] problem_at(profiles, k)
}

/// The message for the problem of profile `i`.
pub open spec fn problem_message(profiles: Seq<ProfileView>, i: int) -> Seq<char> {
    if blank(profiles[i].name) {
        "Enter a configuration name."@
    } else {
        "A configuration named "@ + debug_str(profiles[i].name) + " already exists."@
    }
}

/// Index `i` holds the first profile with the given name.
pub open spec fn position_of(profiles: Seq<ProfileView>, name: Seq<char>, i: int) -> bool {
    &&& 0 <= i < profiles.len()
    &&& profiles[i].name == name
    &&& forall|k: int| 0 <= k < i ==> #[trigger] profiles[k].name != name
}

/// Whether some profile has the given name.
pub open spec fn has_name(profiles: Seq<ProfileView>, name: Seq<char>) -> bool {
    exists|i: int| 0 <= i < profiles.len() && #[trigger] profiles[i].name == name
}

/// Finds the first profile with the given name.
pub fn find_profile(profiles: &Vec<Profile>, name: &str) -> (r: Option<usize>)
    ensures
        r is None <==> !has_name(profiles.deep_view(), name@),
        r matches Some(i) ==> position_of(profiles.deep_view(), name@, i as int),
{
    let ghost views = profiles.deep_view();
    let mut i: usize = 0;
    while i < profiles.len()
        invariant
            i <= profiles@.len(),
            views == profiles.deep_view(),
            forall|k: int| 0 <= k < i ==> #[trigger] views[k].name != name@,
        decreases profiles@.len() - i,
    {
        assert(views[i as int] == profiles@[i as int]@);
        if same_text(profiles[i].name.as_str(), name) {
            assert(views[i as int].name == name@);
            return Some(i);
        }
        i = i + 1;
    }
    None
}

/// The message for a profile that was looked for and is gone.
pub open spec fn removed_message(locale: Locale) -> Seq<char> {
    match locale {
        Locale::English => "This configuration has been removed."@,
        Locale::Chinese => "此配置已被删除。"@,
    }
}

impl Config {
    /// The first profile with the given name.
    pub fn profile(&self, name: &str) -> (r: Option<&Profile>)
        ensures
            r is None <==> !has_name(self@.profiles, name@),
            r matches Some(p) ==> exists|i: int|
                position_of(self@.profiles, name@, i) && p@ == #[trigger] self@.profiles[i],
    {
        match find_profile(&self.profiles, name) {
            Some(i) => Some(&self.profiles[i]),
            None => None,
        }
    }

    /// Checks that every profile has a name, and that no two share one; the
    /// error describes the first profile that breaks this.
    pub fn validate(&self) -> (r: Result<(), String>)
        ensures
            r is Ok <==> valid_profiles(self@.profiles),
            r matches Err(e) ==> exists|i: int|
                first_problem(self@.profiles, i) && e@ == #[trigger] problem_message(self@.profiles, i),
    {
        let ghost views = self@.profiles;
        let mut i: usize = 0;
        while i < self.profiles.len()
            invariant
                i <= self.profiles@.len(),
                views == self@.profiles,
                forall|k: int| 0 <= k < i ==> !#[trigger] problem_at(views, k),
            decreases self.profiles@.len() - i,
        {
            let name = &self.profiles[i].name;
            assert(views[i as int].name == name@);
            if is_blank(name.as_str()) {
                assert(problem_at(views, i as int));
                assert(first_problem(views, i as int));
                let message = String::from_str("Enter a configuration name.");
                assert(message@ == problem_message(views, i as int));
                return Err(message);
            }
            let mut j: usize = 0;
            while j < i
                invariant
                    i < self.profiles@.len(),
                    j <= i,
                    views == self@.profiles,
                    views[i as int].name == name@,
                    !blank(name@),
                    forall|k: int| 0 <= k < i ==> !#[trigger] problem_at(views, k),
                    forall|k: int| 0 <= k < j ==> #[trigger] views[k].name != name@,
                decreases i - j,
            {
                assert(views[j as int].name == self.profiles@[j as int].name@);
                if self.profiles[j].name == *name {
                    assert(views[j as int].name == views[i as int].name);
                    assert(problem_at(views, i as int));
                    assert(first_problem(views, i as int));
                    let message = String::from_str("A configuration named ")
                        .concat(debug_text(name.as_str()).as_str())
                        .concat(" already exists.");
                    assert(message@ == problem_message(views, i as int));
                    return Err(message);
                }
                j = j + 1;
            }
            assert(!problem_at(views, i as int));
            i = i + 1;
        }
        Ok(())
    }

    /// The configuration with `profile` saved: in place of the profile named
    /// `name`, or added at the end when `name` is `None`. Fails, with the
    /// message in the given language, when no profile has that name.
    pub fn with_profile(&self, name: Option<&str>, profile: Profile, locale: Locale) -> (r: Result<Config, String>)
        ensures
            match name {
                None => r matches Ok(c) && c@.profiles == self@.profiles.push(profile@),
                Some(n) => if has_name(self@.profiles, n@) {
                    r matches Ok(c) && exists|i: int| position_of(self@.profiles, n@, i)
                        && c@.profiles == #[trigger] self@.profiles.update(i, profile@)
                } else {
                    r matches Err(e) && e@ == removed_message(locale)
                },
            },
            r matches Ok(c) ==> c@.shortcut == self@.shortcut && c@.schedule == self@.schedule
                && c@.language == self@.language,
    {
        let mut config = self.clone();
        let ghost before = config.profiles.deep_view();
        match name {
            None => {
                config.profiles.push(profile);
                assert(config.profiles.deep_view() =~= before.push(profile@));
                Ok(config)
            },
            Some(n) => match find_profile(&config.profiles, n) {
                Some(i) => {
                    config.profiles.set(i, profile);
                    assert(config.profiles.deep_view() =~= before.update(i as int, profile@));
                    Ok(config)
                },
                None => Err(match locale {
                    Locale::English => String::from_str("This configuration has been removed."),
                    Locale::Chinese => String::from_str("此配置已被删除。"),
                }),
            },
        }
    }

    /// The configuration without the profiles named `name`.
    pub fn without_profile(&self, name: &str) -> (r: Config)
        ensures
            r@.profiles == self@.profiles.filter(|p: ProfileView| p.name != name@),
            r@.shortcut == self@.shortcut,
            r@.schedule == self@.schedule,
            r@.language == self@.language,
    {
        let ghost views = self@.profiles;
        let ghost keep = |p: ProfileView| p.name != name@;
        let mut profiles: Vec<Profile> = Vec::new();
        let mut i: usize = 0;
        while i < self.profiles.len()
            invariant
                i <= self.profiles@.len(),
                views == self@.profiles,
                keep == (|p: ProfileView| p.name != name@),
                profiles.deep_view() == views.take(i as int).filter(keep),
            decreases self.profiles@.len() - i,
        {
            let kept = !same_text(self.profiles[i].name.as_str(), name);
            proof {
                assert(views.take(i + 1).drop_last() =~= views.take(i as int));
                assert(views.take(i + 1).last() == self.profiles@[i as int]@);
                reveal_with_fuel(Seq::filter, 1);
            }
            if kept {
                let ghost prior = profiles.deep_view();
                let p = self.profiles[i].clone();
                profiles.push(p);
                assert(profiles.deep_view() =~= prior.push(self.profiles@[i as int]@));
            }
            i = i + 1;
        }
        assert(views.take(views.len() as int) =~= views);
        Config {
            shortcut: self.shortcut.clone(),
            schedule: self.schedule.clone(),
            profiles,
            language: self.language,
        }
    }

    /// Moves the profile at `index` so that it lands before the profile that
    /// stood at `row` (or last, when `row` is the number of profiles), as a
    /// list dropped onto a row does; `false`, leaving the configuration as it
    /// was, when either position is out of range.
    pub fn move_profile(&mut self, index: usize, row: usize) -> (r: bool)
        ensures
            r == (row <= old(self)@.profiles.len() && index < old(self)@.profiles.len()),
            r ==> final(self)@.profiles == moved(old(self)@.profiles, index as int, row as int),
            !r ==> final(self)@ == old(self)@,
            final(self)@.shortcut == old(self)@.shortcut,
            final(self)@.schedule == old(self)@.schedule,
            final(self)@.language == old(self)@.language,
    {
        if !(row <= self.profiles.len() && index < self.profiles.len()) {
            return false;
        }
        let ghost before = self.profiles.deep_view();
        let target = if index < row { row - 1 } else { row };
        let profile = self.profiles.remove(index);
        let ghost middle = self.profiles.deep_view();
        assert(middle =~= before.remove(index as int));
        self.profiles.insert(target, profile);
        assert(self.profiles.deep_view() =~= middle.insert(target as int, before[index as int]));
        true
    }
}

/// The list with the item at `index` taken out and put back so that it lands
/// before the item that stood at `row`.
pub open spec fn moved<T>(items: Seq<T>, index: int, row: int) -> Seq<T> {
    let target = if index < row { row - 1 } else { row };
    items.remove(index).insert(target, items[index])
}

/// Moving an item keeps every item: the same ones, each as often, in a new order.
pub proof fn moving_keeps_items<T>(items: Seq<T>, index: int, row: int)
    requires
        0 <= index < items.len(),
        0 <= row <= items.len(),
    ensures
        moved(items, index, row).to_multiset() == items.to_multiset(),
        moved(items, index, row).len() == items.len(),
{
    broadcast use vstd::seq_lib::group_to_multiset_ensures, vstd::multiset::group_multiset_axioms;
    let target = if index < row { row - 1 } else { row };
    let x = items[index];
    let removed = items.remove(index);
    let back = removed.insert(target, x);
    assert(back.remove(target) =~= removed);
    assert(back[target] == x);
    assert(back.to_multiset().remove(x) =~= items.to_multiset().remove(x));
    assert(back.contains(x));
    assert(items.contains(x));
    assert(back.to_multiset() =~= items.to_multiset()) by {
        assert forall|y: T| #[trigger] back.to_multiset().count(y) == items.to_multiset().count(y) by {
            if y != x {
                assert(back.to_multiset().remove(x).count(y) == back.to_multiset().count(y));
                assert(items.to_multiset().remove(x).count(y) == items.to_multiset().count(y));
            } else {
                assert(back.to_multiset().remove(x).count(x) == back.to_multiset().count(x) - 1);
                assert(items.to_multiset().remove(x).count(x) == items.to_multiset().count(x) - 1);
            }
        }
    }
}

/// Moving an item onto its own place or the place right after it leaves the list as it was.
pub proof fn moving_in_place_changes_nothing<T>(items: Seq<T>, index: int)
    requires
        0 <= index < items.len(),
    ensures
        moved(items, index, index) == items,
        moved(items, index, index + 1) == items,
{
    assert(moved(items, index, index) =~= items);
    assert(moved(items, index, index + 1) =~= items);
}


/// The appearances chosen by two switches, light first, as an ordered set holds them.
pub open spec fn chosen_modes(light: bool, dark: bool) -> Seq<Mode> {
    if light && dark {
        seq![Mode::Light, Mode::Dark]
    } else if light {
        seq![Mode::Light]
    } else if dark {
        seq![Mode::Dark]
    } else {
        Seq::empty()
    }
}

/// The appearances chosen by two switches, light first.
pub fn modes_from_flags(light: bool, dark: bool) -> (r: Vec<Mode>)
    ensures
        r@ == chosen_modes(light, dark),
{
    let mut modes: Vec<Mode> = Vec::new();
    if light {
        modes.push(Mode::Light);
    }
    if dark {
        modes.push(Mode::Dark);
    }
    assert(modes@ =~= chosen_modes(light, dark));
    modes
}

/// The message for an action that was edited and is gone.
pub open spec fn action_removed_message(locale: Locale) -> Seq<char> {
    match locale {
        Locale::English => "This action has been removed."@,
        Locale::Chinese => "此动作已被删除。"@,
    }
}

impl Action {
    /// Puts a chosen file or program into the action: the path of a
    /// wallpaper or theme, the program of a command; a color has none.
    pub fn set_path(&mut self, value: String)
        ensures
            match old(self)@ {
                ActionView::Wallpaper { .. } => final(self)@ == ActionView::Wallpaper { path: value@ },
                ActionView::Theme { .. } => final(self)@ == ActionView::Theme { path: value@ },
                ActionView::Command(c) => final(self)@ == ActionView::Command(CommandView { program: value@, ..c }),
                ActionView::Color { .. } => final(self)@ == old(self)@,
            },
    {
        match self {
            Action::Wallpaper { path } => {
                *path = value;
            },
            Action::Theme { path } => {
                *path = value;
            },
            Action::Command(command) => {
                command.program = value;
            },
            Action::Color { .. } => {},
        }
    }
}

impl Profile {
    /// Switches whether the profile runs on changing to `mode`; the profile's
    /// modes stay ordered, light first, without repeats.
    pub fn set_when(&mut self, mode: Mode, enabled: bool)
        ensures
            final(self)@.when == chosen_modes(
                if mode == Mode::Light { enabled } else { old(self)@.when.contains(Mode::Light) },
                if mode == Mode::Dark { enabled } else { old(self)@.when.contains(Mode::Dark) },
            ),
            final(self)@.name == old(self)@.name,
            final(self)@.actions == old(self)@.actions,
    {
        let light = if mode == Mode::Light { enabled } else { crate::runtime::has_mode(&self.when, Mode::Light) };
        let dark = if mode == Mode::Dark { enabled } else { crate::runtime::has_mode(&self.when, Mode::Dark) };
        self.when = modes_from_flags(light, dark);
    }

    /// The profile with `action` saved: in place of action `index`, or added
    /// at the end when `index` is `None`; fails, with the message in the given
    /// language, when there is no action `index`.
    pub fn with_action(&self, index: Option<usize>, action: Action, locale: Locale) -> (r: Result<Profile, String>)
        ensures
            match index {
                None => r matches Ok(p) && p@ == (ProfileView { actions: self@.actions.push(action@), ..self@ }),
                Some(i) => if i < self@.actions.len() {
                    r matches Ok(p) && p@ == (ProfileView { actions: self@.actions.update(i as int, action@), ..self@ })
                } else {
                    r matches Err(e) && e@ == action_removed_message(locale)
                },
            },
    {
        let mut profile = self.clone();
        let ghost before = profile.actions.deep_view();
        match index {
            None => {
                profile.actions.push(action);
                assert(profile.actions.deep_view() =~= before.push(action@));
                Ok(profile)
            },
            Some(i) => {
                if i < profile.actions.len() {
                    profile.actions.set(i, action);
                    assert(profile.actions.deep_view() =~= before.update(i as int, action@));
                    Ok(profile)
                } else {
                    Err(match locale {
                        Locale::English => String::from_str("This action has been removed."),
                        Locale::Chinese => String::from_str("此动作已被删除。"),
                    })
                }
            },
        }
    }

    /// The profile without action `index`; `None` when there is no such action.
    pub fn without_action(&self, index: usize) -> (r: Option<Profile>)
        ensures
            index < self@.actions.len() ==> (r matches Some(p)
                && p@ == (ProfileView { actions: self@.actions.remove(index as int), ..self@ })),
            index >= self@.actions.len() ==> r is None,
    {
        let mut profile = self.clone();
        if index < profile.actions.len() {
            let ghost before = profile.actions.deep_view();
            profile.actions.remove(index);
            assert(profile.actions.deep_view() =~= before.remove(index as int));
            Some(profile)
        } else {
            None
        }
    }
}


/// A profile added at the end can be found by its name afterwards.
pub proof fn added_profile_is_found(profiles: Seq<ProfileView>, profile: ProfileView)
    ensures
        has_name(profiles.push(profile), profile.name),
{
    assert(profiles.push(profile)[profiles.len() as int] == profile);
}

/// A profile saved in place of the first one with its own name is the one found
/// by that name afterwards.
pub proof fn replaced_profile_is_found(profiles: Seq<ProfileView>, profile: ProfileView, i: int)
    requires
        position_of(profiles, profile.name, i),
    ensures
        position_of(profiles.update(i, profile), profile.name, i),
{
}

} // verus!
