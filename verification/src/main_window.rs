use vstd::prelude::*;

use crate::config::{removed_message, Profile, ProfileView};
use crate::locale::Locale;
use crate::mode::Mode;
use crate::text::same_text;

verus! {

/// A page of the main window; a profile's page holds the name it is stored
/// under (`None` for a new one) and the profile as opened.
pub enum Page {
    Appearance,
    Profiles,
    Schedule,
    Settings,
    Profile { name: Option<String>, profile: Profile },
}

/// The message for a window that could not be brought to the front.
pub open spec fn activate_message(locale: Locale) -> Seq<char> {
    match locale {
        Locale::English => "Could not activate the window."@,
        Locale::Chinese => "无法激活窗口。"@,
    }
}

/// The page that a navigation tag names; an unknown tag names the appearance page.
pub open spec fn tagged_page(tag: Seq<char>) -> Page {
    if tag == "profiles"@ {
        Page::Profiles
    } else if tag == "schedule"@ {
        Page::Schedule
    } else if tag == "settings"@ {
        Page::Settings
    } else {
        Page::Appearance
    }
}

/// The main window: the page shown, whether the navigation pane is open, the
/// system's appearance as last read (or why it could not be), and the status
/// line.
pub struct MainWindow {
    pub page: Page,
    pub pane_open: bool,
    pub mode: Result<Mode, String>,
    pub status: String,
}

impl MainWindow {
    /// The window as it opens, on the appearance page, with the pane open.
    pub fn new(mode: Result<Mode, String>) -> (r: MainWindow)
        ensures
            r.page is Appearance,
            r.pane_open,
            r.mode == mode,
            r.status@.len() == 0,
    {
        MainWindow { page: Page::Appearance, pane_open: true, mode, status: String::new() }
    }

    /// The window was asked to come to the front (`activated` says whether it
    /// did), and the appearance read again.
    pub fn activated(&mut self, activated: bool, mode: Result<Mode, String>, locale: Locale)
        ensures
            final(self).mode == mode,
            final(self).page == old(self).page,
            final(self).pane_open == old(self).pane_open,
            activated ==> final(self).status == old(self).status,
            !activated ==> final(self).status@ == activate_message(locale),
    {
        if !activated {
            self.status = match locale {
                Locale::English => String::from_str("Could not activate the window."),
                Locale::Chinese => String::from_str("无法激活窗口。"),
            };
        }
        self.mode = mode;
    }

    /// The appearance changed, or was read again after a choice.
    pub fn changed(&mut self, mode: Result<Mode, String>)
        ensures
            final(self).mode == mode,
            final(self).page == old(self).page,
            final(self).pane_open == old(self).pane_open,
            final(self).status == old(self).status,
    {
        self.mode = mode;
    }

    /// A navigation item was chosen by its tag; `None` changes nothing.
    pub fn navigate(&mut self, tag: Option<&str>)
        ensures
            final(self).mode == old(self).mode,
            final(self).pane_open == old(self).pane_open,
            final(self).status == old(self).status,
            tag is None ==> final(self).page == old(self).page,
            tag is Some ==> final(self).page == tagged_page(tag->0@),
    {
        match tag {
            Some(tag) => {
                self.page = if same_text(tag, "profiles") {
                    Page::Profiles
                } else if same_text(tag, "schedule") {
                    Page::Schedule
                } else if same_text(tag, "settings") {
                    Page::Settings
                } else {
                    Page::Appearance
                };
            },
            None => {},
        }
    }

    /// Opens the page of the profile stored under `name` (`stored`, `None`
    /// where it is gone), or of a new profile where `name` is `None`.
    pub fn edit(&mut self, name: Option<String>, stored: Option<Profile>, locale: Locale)
        ensures
            final(self).mode == old(self).mode,
            final(self).pane_open == old(self).pane_open,
            name is Some && stored is None ==> final(self).page == old(self).page
                && final(self).status@ == removed_message(locale),
            name is Some && stored is Some ==> final(self).status == old(self).status
                && (final(self).page matches Page::Profile { name: n, profile: p } && n == name && p@ == stored->0@),
            name is None ==> final(self).status == old(self).status
                && (final(self).page matches Page::Profile { name: n, profile: p } && n is None
                    && p@ == (ProfileView { name: Seq::empty(), when: Seq::empty(), actions: Seq::empty() })),
    {
        let profile = match &name {
            Some(_) => match stored {
                Some(profile) => profile,
                None => {
                    self.status = match locale {
                        Locale::English => String::from_str("This configuration has been removed."),
                        Locale::Chinese => String::from_str("此配置已被删除。"),
                    };
                    return;
                },
            },
            None => Profile::default(),
        };
        self.page = Page::Profile { name, profile };
    }

    /// A profile was run on request, with this outcome, which the status line shows.
    pub fn ran(&mut self, result: Result<(), String>)
        ensures
            final(self).mode == old(self).mode,
            final(self).page == old(self).page,
            final(self).pane_open == old(self).pane_open,
            match result {
                Ok(()) => final(self).status@.len() == 0,
                Err(e) => final(self).status@ == e@,
            },
    {
        self.status = match result {
            Ok(()) => String::new(),
            Err(error) => error,
        };
    }

    /// Back from a profile's page to the list.
    pub fn back(&mut self)
        ensures
            final(self).page is Profiles,
            final(self).mode == old(self).mode,
            final(self).pane_open == old(self).pane_open,
            final(self).status == old(self).status,
    {
        self.page = Page::Profiles;
    }

    /// The error shown at the top: why the appearance could not be read, or
    /// else the status line.
    pub fn error_text(&self) -> (r: String)
        ensures
            r@ == match self.mode {
                Err(e) => e@,
                Ok(_) => self.status@,
            },
    {
        match &self.mode {
            Err(error) => error.clone(),
            Ok(_) => self.status.clone(),
        }
    }

    /// Whether the title bar offers to go back: on a profile's page.
    pub fn back_visible(&self) -> (r: bool)
        ensures
            r == self.page is Profile,
    {
        match &self.page {
            Page::Profile { .. } => true,
            _ => false,
        }
    }

    /// The tag of the navigation item shown as selected: a profile's page
    /// belongs to the list of profiles.
    pub fn selected_tag(&self) -> (r: &'static str)
        ensures
            r@ == match self.page {
                Page::Appearance => "appearance"@,
                Page::Profiles => "profiles"@,
                Page::Profile { .. } => "profiles"@,
                Page::Schedule => "schedule"@,
                Page::Settings => "settings"@,
            },
    {
        match &self.page {
            Page::Appearance => "appearance",
            Page::Profiles => "profiles",
            Page::Profile { .. } => "profiles",
            Page::Schedule => "schedule",
            Page::Settings => "settings",
        }
    }

    /// Opens or closes the pane; `None` turns it over.
    pub fn pane(&mut self, open: Option<bool>)
        ensures
            final(self).pane_open == match open {
                Some(v) => v,
                None => !old(self).pane_open,
            },
            final(self).page == old(self).page,
            final(self).mode == old(self).mode,
            final(self).status == old(self).status,
    {
        self.pane_open = match open {
            Some(value) => value,
            None => !self.pane_open,
        };
    }
}

/// The appearance chosen in the window's picker: the second entry is dark.
pub fn picked_appearance(index: usize) -> (r: Mode)
    ensures
        r == if index == 1 { Mode::Dark } else { Mode::Light },
{
    if index == 1 {
        Mode::Dark
    } else {
        Mode::Light
    }
}

/// The message for a configuration that could not be saved after launching at
/// login was switched, and could not be switched back either.
pub open spec fn launch_restore_message(error: Seq<char>, restore: Seq<char>, locale: Locale) -> Seq<char> {
    match locale {
        Locale::English => error + "\nLaunch at login: "@ + restore,
        Locale::Chinese => error + "\n登录启动："@ + restore,
    }
}

/// The error of a failed save of the configuration: its own, followed by the
/// error of switching launching at login back (`restore`), where that was
/// needed and failed too.
pub fn save_config_error(error: String, restore: Option<String>, locale: Locale) -> (r: String)
    ensures
        restore is None ==> r@ == error@,
        restore matches Some(x) ==> r@ == launch_restore_message(error@, x@, locale),
{
    match restore {
        None => error,
        Some(restore) => match locale {
            Locale::English => error.concat("\nLaunch at login: ").concat(restore.as_str()),
            Locale::Chinese => error.concat("\n登录启动：").concat(restore.as_str()),
        },
    }
}

} // verus!
