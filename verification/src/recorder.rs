use vstd::prelude::*;

verus! {

/// The message for a recorder that could not take the focus.
pub open spec fn recorder_focus_message() -> Seq<char> {
    "Could not focus the shortcut recorder."@
}

/// The line added for a shortcut that could not be registered again.
pub open spec fn restore_message(error: Seq<char>) -> Seq<char> {
    "Could not restore the shortcut: "@ + error
}

/// The error shown after a failed restore: the error shown before, a line
/// break where there was one, and the restore's own line.
pub open spec fn with_restore_failure(shown: Seq<char>, error: Seq<char>) -> Seq<char> {
    if shown.len() == 0 {
        restore_message(error)
    } else {
        shown.push('\n') + restore_message(error)
    }
}

/// The part of the settings that records the global shortcut: whether keys
/// are being recorded (the shortcut is then unregistered), the combination
/// pressed so far, and the error shown. Each step but a key release and a
/// cancel clears the error shown before it.
pub struct ShortcutSettings {
    pub recording: bool,
    pub pending: Option<String>,
    pub error: String,
}

impl ShortcutSettings {
    /// Nothing recorded, nothing shown.
    pub fn new() -> (r: ShortcutSettings)
        ensures
            !r.recording,
            r.pending is None,
            r.error@.len() == 0,
    {
        ShortcutSettings { recording: false, pending: None, error: String::new() }
    }

    /// Launching at login was switched, with this outcome.
    pub fn launch(&mut self, result: Result<(), String>)
        ensures
            final(self).recording == old(self).recording,
            final(self).pending == old(self).pending,
            match result {
                Ok(()) => final(self).error@.len() == 0,
                Err(e) => final(self).error@ == e@,
            },
    {
        self.error = String::new();
        match result {
            Ok(()) => {},
            Err(error) => {
                self.error = error;
            },
        }
    }

    /// Recording was asked for, and the shortcut unregistered with this
    /// outcome: recording starts where that worked.
    pub fn record(&mut self, result: Result<(), String>)
        ensures
            match result {
                Ok(()) => final(self).recording && final(self).pending is None && final(self).error@.len() == 0,
                Err(e) => final(self).recording == old(self).recording && final(self).pending == old(self).pending
                    && final(self).error@ == e@,
            },
    {
        self.error = String::new();
        match result {
            Ok(()) => {
                self.recording = true;
                self.pending = None;
            },
            Err(error) => {
                self.error = error;
            },
        }
    }

    /// Keys were pressed, read as a shortcut (`None` for modifiers alone):
    /// while recording, a shortcut becomes the pending one, and a key that
    /// cannot be one drops it and shows why.
    pub fn pressed(&mut self, result: Result<Option<String>, String>)
        ensures
            final(self).recording == old(self).recording,
            !old(self).recording ==> final(self).pending == old(self).pending && final(self).error@.len() == 0,
            old(self).recording ==> match result {
                Ok(Some(v)) => final(self).pending == Some(v) && final(self).error@.len() == 0,
                Ok(None) => final(self).pending == old(self).pending && final(self).error@.len() == 0,
                Err(e) => final(self).pending is None && final(self).error@ == e@,
            },
    {
        self.error = String::new();
        if self.recording {
            match result {
                Ok(Some(value)) => {
                    self.pending = Some(value);
                },
                Ok(None) => {},
                Err(error) => {
                    self.pending = None;
                    self.error = error;
                },
            }
        }
    }

    /// The keys were released: while recording, the pending shortcut, if
    /// any, is taken to be stored, and the error cleared.
    pub fn released(&mut self) -> (r: Option<String>)
        ensures
            final(self).recording == old(self).recording,
            old(self).recording && old(self).pending is Some ==> r == old(self).pending
                && final(self).pending is None && final(self).error@.len() == 0,
            !(old(self).recording && old(self).pending is Some) ==> r is None
                && final(self).pending == old(self).pending && final(self).error == old(self).error,
    {
        if self.recording && self.pending.is_some() {
            self.error = String::new();
            let taken = self.pending.take();
            taken
        } else {
            None
        }
    }

    /// The shortcut taken on release was stored with this outcome: recording
    /// ends where it worked; otherwise the error is shown, and the shortcut
    /// stored before is to be registered again (see `restored`).
    pub fn stored(&mut self, result: Result<(), String>)
        ensures
            final(self).pending == old(self).pending,
            match result {
                Ok(()) => !final(self).recording && final(self).error == old(self).error,
                Err(e) => final(self).recording == old(self).recording && final(self).error@ == e@,
            },
    {
        match result {
            Ok(()) => {
                self.recording = false;
            },
            Err(error) => {
                self.error = error;
            },
        }
    }

    /// The recorder could not take the focus: that is shown, and the
    /// shortcut stored before is to be registered again.
    pub fn focus_failed(&mut self)
        ensures
            final(self).recording == old(self).recording,
            final(self).pending == old(self).pending,
            final(self).error@ == recorder_focus_message(),
    {
        self.error = String::from_str("Could not focus the shortcut recorder.");
    }

    /// The shortcut was removed from the configuration, with this outcome.
    pub fn removed(&mut self, result: Result<(), String>)
        ensures
            final(self).recording == old(self).recording,
            final(self).pending == old(self).pending,
            match result {
                Ok(()) => final(self).error@.len() == 0,
                Err(e) => final(self).error@ == e@,
            },
    {
        self.launch(result);
    }

    /// The stored shortcut was registered again, while recording, with this
    /// outcome: recording ends where it worked; otherwise a line saying so is
    /// added to the error shown.
    pub fn restored(&mut self, result: Result<(), String>)
        ensures
            !old(self).recording ==> final(self).recording == old(self).recording
                && final(self).pending == old(self).pending && final(self).error == old(self).error,
            old(self).recording ==> match result {
                Ok(()) => !final(self).recording && final(self).pending is None && final(self).error == old(self).error,
                Err(e) => final(self).recording && final(self).pending == old(self).pending
                    && final(self).error@ == with_restore_failure(old(self).error@, e@),
            },
    {
        if self.recording {
            match result {
                Ok(()) => {
                    self.recording = false;
                    self.pending = None;
                },
                Err(error) => {
                    let ghost shown = self.error@;
                    if self.error.unicode_len() > 0 {
                        self.error.append("\n");
                        proof {
                            reveal_strlit("\n");
                            assert(self.error@ =~= shown.push('\n'));
                        }
                    }
                    let ghost before = self.error@;
                    self.error.append("Could not restore the shortcut: ");
                    self.error.append(error.as_str());
                    assert(self.error@ =~= before + restore_message(error@));
                },
            }
        }
    }
}

/// What a key pressed on the shortcut recorder does.
pub enum KeyRoute {
    /// Tab moves the focus on, as anywhere else.
    Pass,
    /// Escape alone stops recording.
    Cancel,
    /// Any other key is read as part of the shortcut.
    Press,
}

/// Where a key pressed on the recorder goes, given its Windows virtual key and
/// the modifiers held: Tab without Control, Alt or Windows passes, Escape with
/// no modifier cancels, and the rest is read.
pub fn route_key(vk: u16, ctrl: bool, alt: bool, shift: bool, win: bool) -> (r: KeyRoute)
    ensures
        vk == 0x09 && !ctrl && !alt && !win ==> r is Pass,
        !(vk == 0x09 && !ctrl && !alt && !win) && vk == 0x1B && !ctrl && !alt && !shift && !win ==> r is Cancel,
        !(vk == 0x09 && !ctrl && !alt && !win) && !(vk == 0x1B && !ctrl && !alt && !shift && !win) ==> r is Press,
{
    if vk == 0x09 && !ctrl && !alt && !win {
        KeyRoute::Pass
    } else if vk == 0x1B && !ctrl && !alt && !shift && !win {
        KeyRoute::Cancel
    } else {
        KeyRoute::Press
    }
}

} // verus!
