use vstd::prelude::*;

use crate::config::{action_removed_message, removed_message, Action, ActionView, CommandView, Profile, ProfileView};
use crate::locale::Locale;
use crate::mode::Mode;
use crate::profile_editor::{distinct_below, fresh_keys, key_position};

verus! {

/// The message for a file picker that did not open.
pub open spec fn picker_message(locale: Locale) -> Seq<char> {
    match locale {
        Locale::English => "Could not open the file picker."@,
        Locale::Chinese => "无法打开文件选择器。"@,
    }
}

/// The message for an argument field that could not take the focus.
pub open spec fn focus_message(locale: Locale) -> Seq<char> {
    match locale {
        Locale::English => "Could not focus the input."@,
        Locale::Chinese => "无法激活输入框。"@,
    }
}

/// The message for something dropped that is not a file of the file manager.
pub open spec fn not_storage_message(locale: Locale) -> Seq<char> {
    match locale {
        Locale::English => "Drop a file from File Explorer."@,
        Locale::Chinese => "请从文件资源管理器拖入文件。"@,
    }
}

/// The message for several files dropped at once.
pub open spec fn several_message(locale: Locale) -> Seq<char> {
    match locale {
        Locale::English => "Drop one file at a time."@,
        Locale::Chinese => "每次请拖入一个文件。"@,
    }
}

/// The message for a dropped item that is no file.
pub open spec fn not_file_message(locale: Locale) -> Seq<char> {
    match locale {
        Locale::English => "The dropped item must be a file."@,
        Locale::Chinese => "拖入的项目需要是文件。"@,
    }
}

/// The file that a drop brings: the paths of the items dropped, where they
/// come from the file manager (`None` otherwise), and whether the one item,
/// where there is one, is a file. Other drops fail with their message.
pub fn dropped_file(items: Option<Vec<String>>, is_file: bool, locale: Locale) -> (r: Result<String, String>)
    ensures
        items is None ==> (r matches Err(e) && e@ == not_storage_message(locale)),
        items matches Some(v) && v@.len() != 1 ==> (r matches Err(e) && e@ == several_message(locale)),
        items matches Some(v) && v@.len() == 1 && !is_file ==> (r matches Err(e) && e@ == not_file_message(locale)),
        items is Some && items->0@.len() == 1 && is_file ==> (r matches Ok(p) && p@ == items->0@[0]@),
{
    let mut items = match items {
        Some(items) => items,
        None => {
            return Err(match locale {
                Locale::English => String::from_str("Drop a file from File Explorer."),
                Locale::Chinese => String::from_str("请从文件资源管理器拖入文件。"),
            });
        },
    };
    if items.len() != 1 {
        return Err(match locale {
            Locale::English => String::from_str("Drop one file at a time."),
            Locale::Chinese => String::from_str("每次请拖入一个文件。"),
        });
    }
    if !is_file {
        return Err(match locale {
            Locale::English => String::from_str("The dropped item must be a file."),
            Locale::Chinese => String::from_str("拖入的项目需要是文件。"),
        });
    }
    Ok(items.remove(0))
}

/// The editor of one action of a configuration: the configuration's name,
/// the place of the action (`None` for a new one), the action as edited, the
/// argument row to focus, a key for each argument's row, the next key, whether
/// the preview failed, and the error shown. Each step but a focus report and a
/// failed preview clears the error shown before it.
pub struct ActionEditor {
    pub name: String,
    pub index: Option<usize>,
    pub draft: Action,
    pub focus: Option<usize>,
    pub keys: Vec<usize>,
    pub next: usize,
    pub preview_failed: bool,
    pub error: String,
}

/// The arguments of an action that is a command; none for another.
pub open spec fn arguments(action: ActionView) -> Seq<Seq<char>> {
    match action {
        ActionView::Command(c) => c.args,
        _ => Seq::empty(),
    }
}

impl ActionEditor {
    /// The argument rows' keys are told apart, and a command has one per argument.
    pub open spec fn wf(&self) -> bool {
        &&& distinct_below(self.keys@, self.next)
        &&& self.draft@ is Command ==> self.keys@.len() == arguments(self.draft@).len()
    }

    /// The editor of `action`, of configuration `name`, at place `index`
    /// (`None` for a new action): its arguments get the keys 0, 1, ...
    pub fn new(name: String, index: Option<usize>, action: Action) -> (r: ActionEditor)
        ensures
            r.wf(),
            r.name == name,
            r.index == index,
            r.draft@ == action@,
            r.focus is None,
            r.keys@ == fresh_keys(0, arguments(action@).len() as int),
            r.next == arguments(action@).len(),
            !r.preview_failed,
            r.error@.len() == 0,
    {
        let count = match &action {
            Action::Command(command) => command.args.len(),
            _ => 0,
        };
        let mut keys: Vec<usize> = Vec::new();
        let mut i: usize = 0;
        while i < count
            invariant
                i <= count,
                keys@ == fresh_keys(0, i as int),
            decreases count - i,
        {
            keys.push(i);
            i = i + 1;
            assert(keys@ =~= fresh_keys(0, i as int));
        }
        ActionEditor {
            name,
            index,
            draft: action,
            focus: None,
            keys,
            next: count,
            preview_failed: false,
            error: String::new(),
        }
    }

    /// Puts a chosen file into the action, and lets the preview try again.
    pub fn set_path(&mut self, value: String)
        requires
            old(self).wf(),
        ensures
            final(self).wf(),
            match old(self).draft@ {
                ActionView::Wallpaper { .. } => final(self).draft@ == ActionView::Wallpaper { path: value@ },
                ActionView::Theme { .. } => final(self).draft@ == ActionView::Theme { path: value@ },
                ActionView::Command(c) => final(self).draft@ == ActionView::Command(CommandView { program: value@, ..c }),
                ActionView::Color { .. } => final(self).draft@ == old(self).draft@,
            },
            !final(self).preview_failed,
            final(self).keys == old(self).keys,
            final(self).next == old(self).next,
            final(self).focus == old(self).focus,
            final(self).error == old(self).error,
    {
        self.draft.set_path(value);
        self.preview_failed = false;
    }

    /// The file picker was asked for; where it did not open, that is shown.
    pub fn picker(&mut self, opened: bool, locale: Locale)
        ensures
            final(self).draft@ == old(self).draft@,
            final(self).keys == old(self).keys,
            final(self).next == old(self).next,
            final(self).preview_failed == old(self).preview_failed,
            opened ==> final(self).error@.len() == 0,
            !opened ==> final(self).error@ == picker_message(locale),
    {
        self.error = String::new();
        if !opened {
            self.error = match locale {
                Locale::English => String::from_str("Could not open the file picker."),
                Locale::Chinese => String::from_str("无法打开文件选择器。"),
            };
        }
    }

    /// What the file picker gave: a path is put into the action, nothing
    /// chosen changes nothing, and its error is shown.
    pub fn picked(&mut self, result: Result<Option<String>, String>)
        requires
            old(self).wf(),
        ensures
            final(self).wf(),
            final(self).keys == old(self).keys,
            final(self).next == old(self).next,
            match result {
                Ok(Some(path)) => final(self).error@.len() == 0 && !final(self).preview_failed && match old(self).draft@ {
                    ActionView::Wallpaper { .. } => final(self).draft@ == ActionView::Wallpaper { path: path@ },
                    ActionView::Theme { .. } => final(self).draft@ == ActionView::Theme { path: path@ },
                    ActionView::Command(c) => final(self).draft@ == ActionView::Command(CommandView { program: path@, ..c }),
                    ActionView::Color { .. } => final(self).draft@ == old(self).draft@,
                },
                Ok(None) => final(self).error@.len() == 0 && final(self).draft@ == old(self).draft@,
                Err(e) => final(self).error@ == e@ && final(self).draft@ == old(self).draft@,
            },
    {
        self.error = String::new();
        match result {
            Ok(Some(path)) => self.set_path(path),
            Ok(None) => {},
            Err(error) => {
                self.error = error;
            },
        }
    }

    /// The focus of an argument row was asked for: no row waits for it any
    /// more, and a failure is shown. The error shown before stays otherwise.
    pub fn focused(&mut self, success: bool, locale: Locale)
        ensures
            final(self).focus is None,
            final(self).draft@ == old(self).draft@,
            final(self).keys == old(self).keys,
            final(self).next == old(self).next,
            success ==> final(self).error == old(self).error,
            !success ==> final(self).error@ == focus_message(locale),
    {
        self.focus = None;
        if !success {
            self.error = match locale {
                Locale::English => String::from_str("Could not focus the input."),
                Locale::Chinese => String::from_str("无法激活输入框。"),
            };
        }
    }

    /// The preview of the file could not be shown. The error shown stays.
    pub fn image_failed(&mut self)
        ensures
            final(self).preview_failed,
            final(self).draft@ == old(self).draft@,
            final(self).keys == old(self).keys,
            final(self).next == old(self).next,
            final(self).error == old(self).error,
    {
        self.preview_failed = true;
    }

    /// A color was picked: the first entry is light, any other dark.
    pub fn color(&mut self, choice: Option<usize>)
        requires
            old(self).wf(),
        ensures
            final(self).wf(),
            final(self).error@.len() == 0,
            final(self).keys == old(self).keys,
            final(self).next == old(self).next,
            choice is None ==> final(self).draft@ == old(self).draft@,
            choice matches Some(i) ==> final(self).draft@
                == (ActionView::Color { mode: if i == 0 { Mode::Light } else { Mode::Dark } }),
    {
        self.error = String::new();
        match choice {
            Some(i) => {
                self.draft = Action::Color { mode: if i == 0 { Mode::Light } else { Mode::Dark } };
            },
            None => {},
        }
    }

    /// A path was typed.
    pub fn path(&mut self, value: String)
        requires
            old(self).wf(),
        ensures
            final(self).wf(),
            final(self).error@.len() == 0,
            !final(self).preview_failed,
            final(self).keys == old(self).keys,
            match old(self).draft@ {
                ActionView::Wallpaper { .. } => final(self).draft@ == ActionView::Wallpaper { path: value@ },
                ActionView::Theme { .. } => final(self).draft@ == ActionView::Theme { path: value@ },
                ActionView::Command(c) => final(self).draft@ == ActionView::Command(CommandView { program: value@, ..c }),
                ActionView::Color { .. } => final(self).draft@ == old(self).draft@,
            },
    {
        self.error = String::new();
        self.set_path(value);
    }

    /// A file was dropped (see `dropped_file`): its path is put into the
    /// action, or its error shown.
    pub fn dropped(&mut self, result: Result<String, String>)
        requires
            old(self).wf(),
        ensures
            final(self).wf(),
            final(self).keys == old(self).keys,
            match result {
                Ok(path) => final(self).error@.len() == 0 && match old(self).draft@ {
                    ActionView::Wallpaper { .. } => final(self).draft@ == ActionView::Wallpaper { path: path@ },
                    ActionView::Theme { .. } => final(self).draft@ == ActionView::Theme { path: path@ },
                    ActionView::Command(c) => final(self).draft@ == ActionView::Command(CommandView { program: path@, ..c }),
                    ActionView::Color { .. } => final(self).draft@ == old(self).draft@,
                },
                Err(e) => final(self).error@ == e@ && final(self).draft@ == old(self).draft@,
            },
    {
        self.error = String::new();
        match result {
            Ok(path) => self.set_path(path),
            Err(error) => {
                self.error = error;
            },
        }
    }

    /// Whether the command waits for its program to finish.
    pub fn wait(&mut self, wait: bool)
        requires
            old(self).wf(),
        ensures
            final(self).wf(),
            final(self).error@.len() == 0,
            final(self).keys == old(self).keys,
            match old(self).draft@ {
                ActionView::Command(c) => final(self).draft@ == ActionView::Command(CommandView { wait, ..c }),
                _ => final(self).draft@ == old(self).draft@,
            },
    {
        self.error = String::new();
        match &mut self.draft {
            Action::Command(command) => {
                command.wait = wait;
            },
            _ => {},
        }
    }

    /// Adds an empty argument to a command, with a new key, and asks for its focus.
    pub fn add_argument(&mut self)
        requires
            old(self).wf(),
            old(self).next < usize::MAX,
        ensures
            final(self).wf(),
            final(self).error@.len() == 0,
            match old(self).draft@ {
                ActionView::Command(c) => {
                    &&& final(self).draft@ == ActionView::Command(CommandView { args: c.args.push(Seq::empty()), ..c })
                    &&& final(self).keys@ == old(self).keys@.push(old(self).next)
                    &&& final(self).focus == Some(old(self).next)
                    &&& final(self).next == old(self).next + 1
                },
                _ => final(self).draft@ == old(self).draft@ && final(self).keys == old(self).keys
                    && final(self).focus == old(self).focus && final(self).next == old(self).next,
            },
    {
        self.error = String::new();
        let key = self.next;
        match &mut self.draft {
            Action::Command(command) => {
                let ghost before = command.args.deep_view();
                command.args.push(String::new());
                assert(command.args.deep_view() =~= before.push(Seq::empty()));
                self.keys.push(key);
                self.focus = Some(key);
                self.next = key + 1;
            },
            _ => {},
        }
        assert forall|i: int| 0 <= i < self.keys@.len() implies self.keys@[i] < self.next by {
            if i < old(self).keys@.len() {
                assert(self.keys@[i] == old(self).keys@[i]);
            }
        }
        assert forall|i: int, j: int| 0 <= i < j < self.keys@.len() implies self.keys@[i] != self.keys@[j] by {
            if j < old(self).keys@.len() {
                assert(self.keys@[i] == old(self).keys@[i] && self.keys@[j] == old(self).keys@[j]);
            } else {
                assert(self.keys@[i] == old(self).keys@[i]);
            }
        }
    }

    /// Removes the argument whose row has `key` from a command; the focus
    /// moves to the row now in its place, or to the last row.
    pub fn remove_argument(&mut self, key: usize)
        requires
            old(self).wf(),
        ensures
            final(self).wf(),
            final(self).error@.len() == 0,
            final(self).next == old(self).next,
            !(old(self).draft@ is Command && old(self).keys@.contains(key)) ==> final(self).draft@ == old(self).draft@
                && final(self).keys == old(self).keys && final(self).focus == old(self).focus,
            forall|i: int| 0 <= i < old(self).keys@.len() && old(self).keys@[i] == key && old(self).draft@ is Command
                ==> {
                    let c = old(self).draft@->Command_0;
                    let keys = old(self).keys@.remove(i);
                    &&& final(self).draft@ == ActionView::Command(CommandView { args: c.args.remove(i), ..c })
                    &&& final(self).keys@ == keys
                    &&& final(self).focus == if keys.len() == 0 {
                        None
                    } else if i < keys.len() {
                        Some(keys[i])
                    } else {
                        Some(keys[keys.len() - 1])
                    }
                },
    {
        self.error = String::new();
        let position = key_position(&self.keys, key);
        match &mut self.draft {
            Action::Command(command) => {
                match position {
                    Some(index) => {
                        let ghost before = command.args.deep_view();
                        command.args.remove(index);
                        assert(command.args.deep_view() =~= before.remove(index as int));
                        let ghost keys0 = self.keys@;
                        self.keys.remove(index);
                        let last = if self.keys.len() == 0 { 0 } else { self.keys.len() - 1 };
                        let place = if index < last { index } else { last };
                        self.focus = if place < self.keys.len() { Some(self.keys[place]) } else { None };
                        proof {
                            let index = index as int;
                            assert forall|i: int, j: int| 0 <= i < j < self.keys@.len() implies self.keys@[i] != self.keys@[j] by {
                                let (a, b) = (if i < index { i } else { i + 1 }, if j < index { j } else { j + 1 });
                                assert(self.keys@[i] == keys0[a] && self.keys@[j] == keys0[b]);
                            }
                            assert forall|i: int| 0 <= i < self.keys@.len() implies self.keys@[i] < self.next by {
                                let a = if i < index { i } else { i + 1 };
                                assert(self.keys@[i] == keys0[a]);
                            }
                            assert forall|i: int| 0 <= i < keys0.len() && keys0[i] == key implies i == index by {
                                if i < index {
                                    assert(keys0[i] != key);
                                } else if i > index {
                                    assert(keys0[index] != keys0[i]);
                                }
                            }
                        }
                    },
                    None => {},
                }
            },
            _ => {},
        }
    }

    /// Changes the argument whose row has `key`.
    pub fn argument(&mut self, key: usize, value: String)
        requires
            old(self).wf(),
        ensures
            final(self).wf(),
            final(self).error@.len() == 0,
            final(self).keys == old(self).keys,
            !(old(self).draft@ is Command && old(self).keys@.contains(key)) ==> final(self).draft@ == old(self).draft@,
            forall|i: int| 0 <= i < old(self).keys@.len() && old(self).keys@[i] == key && old(self).draft@ is Command
                ==> {
                    let c = old(self).draft@->Command_0;
                    final(self).draft@ == ActionView::Command(CommandView { args: c.args.update(i, value@), ..c })
                },
    {
        self.error = String::new();
        let position = key_position(&self.keys, key);
        match &mut self.draft {
            Action::Command(command) => {
                match position {
                    Some(index) => {
                        let ghost before = command.args.deep_view();
                        command.args.set(index, value);
                        assert(command.args.deep_view() =~= before.update(index as int, value@));
                    },
                    None => {},
                }
            },
            _ => {},
        }
        proof {
            if position is Some {
                let index = position->0 as int;
                assert forall|i: int| 0 <= i < old(self).keys@.len() && old(self).keys@[i] == key implies i == index by {
                    if i < index {
                        assert(old(self).keys@[i] != key);
                    } else if i > index {
                        assert(old(self).keys@[index] != old(self).keys@[i]);
                    }
                }
            }
        }
    }

    /// The profile to store with the action saved into it, from the profile
    /// stored under the configuration's name (`None` where it is gone); fails,
    /// with the message, where the profile or the action it replaces is gone.
    pub fn save(&mut self, stored: Option<Profile>, locale: Locale) -> (r: Result<Profile, String>)
        ensures
            final(self).draft@ == old(self).draft@,
            final(self).keys == old(self).keys,
            final(self).next == old(self).next,
            final(self).error@.len() == 0,
            stored is None ==> (r matches Err(e) && e@ == removed_message(locale)),
            stored matches Some(p) ==> match old(self).index {
                None => r matches Ok(q) && q@ == (ProfileView { actions: p@.actions.push(old(self).draft@), ..p@ }),
                Some(i) => if i < p@.actions.len() {
                    r matches Ok(q) && q@ == (ProfileView { actions: p@.actions.update(i as int, old(self).draft@), ..p@ })
                } else {
                    r matches Err(e) && e@ == action_removed_message(locale)
                },
            },
    {
        self.error = String::new();
        match stored {
            Some(profile) => profile.with_action(self.index, self.draft.clone(), locale),
            None => Err(match locale {
                Locale::English => String::from_str("This configuration has been removed."),
                Locale::Chinese => String::from_str("此配置已被删除。"),
            }),
        }
    }

    /// Storing failed: its error is shown.
    pub fn failed(&mut self, error: String)
        ensures
            final(self).error@ == error@,
            final(self).draft@ == old(self).draft@,
            final(self).keys == old(self).keys,
            final(self).next == old(self).next,
    {
        self.error = error;
    }
}

} // verus!
