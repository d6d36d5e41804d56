use vstd::prelude::*;

use jiff::Zoned;

use crate::ipc::{State, mode_view};
use crate::config::{Config, ConfigView, Profile, ProfileView, valid_profiles, problem_message, first_problem};
use crate::mode::Mode;
use crate::schedule::{current_mode, nanos_of, next_event, zoned_clone, zoned_nanos, Event, scheduled_mode};
use crate::shortcut::{hotkey_reading, or_pair, reads_as, Shortcut};
use crate::text::{debug_str, debug_text};

verus! {

/// The background process's state: what is configured, what was applied last,
/// whether configurations are being run, and who listens.
pub struct Runtime {
    pub config: Config,
    shortcut: Shortcut,
    next: Option<Event>,
    applied: Option<Mode>,
    busy: bool,
    peers: Vec<usize>,
    recording: Option<usize>,
    error: Option<String>,
}

/// The runtime's state as plain values.
pub struct RuntimeView {
    pub config: ConfigView,
    pub shortcut: Option<u32>,
    pub applied: Option<Mode>,
    pub busy: bool,
    pub peers: Set<usize>,
    pub recording: Option<usize>,
    pub error: Option<Seq<char>>,
}

impl View for Runtime {
    type V = RuntimeView;

    closed spec fn view(&self) -> RuntimeView {
        RuntimeView {
            config: self.config@,
            shortcut: self.shortcut@,
            applied: self.applied,
            busy: self.busy,
            peers: Set::new(|p: usize| self.peers@.contains(p)),
            recording: self.recording,
            error: match self.error {
                Some(e) => Some(e@),
                None => None,
            },
        }
    }
}

/// The profiles that run on switching to `mode`, in order.
pub open spec fn matching(profiles: Seq<ProfileView>, mode: Mode) -> Seq<ProfileView> {
    profiles.filter(|p: ProfileView| p.when.contains(mode))
}

/// Whether switching to `mode` starts a run: the mode is new, nothing runs yet,
/// and some profile runs on it.
pub open spec fn starts_run(s: RuntimeView, mode: Mode) -> bool {
    &&& s.applied != Some(mode)
    &&& !s.busy
    &&& matching(s.config.profiles, mode).len() > 0
}

/// The state after the system switched to `mode`.
pub open spec fn after_change(s: RuntimeView, mode: Mode) -> RuntimeView {
    RuntimeView { applied: Some(mode), busy: s.busy || starts_run(s, mode), ..s }
}

/// The state after a run of configurations ended.
pub open spec fn after_finish(s: RuntimeView) -> RuntimeView {
    RuntimeView { busy: false, ..s }
}

/// The state after an error was reported: it is kept for the next listener
/// when nobody listens.
pub open spec fn after_report(s: RuntimeView, error: Seq<char>) -> RuntimeView {
    if s.peers.is_empty() {
        RuntimeView { error: Some(error), ..s }
    } else {
        s
    }
}

/// The state after `peer` subscribed: it listens, and the kept error is handed over.
pub open spec fn after_subscribe(s: RuntimeView, peer: usize) -> RuntimeView {
    RuntimeView { peers: s.peers.insert(peer), error: None, ..s }
}

/// The message for a run of a profile that does not exist.
pub open spec fn not_found_message(name: Seq<char>) -> Seq<char> {
    "Configuration "@ + debug_str(name) + " was not found."@
}

/// The message for a run asked for while another runs.
pub open spec fn running_message() -> Seq<char> {
    "A configuration is already running."@
}

/// The message for a save whose file could not be written, where putting the
/// old shortcut back failed too.
pub open spec fn save_message(error: Seq<char>, restore: Option<Seq<char>>) -> Seq<char> {
    match restore {
        None => error,
        Some(r) => error + "\nShortcut: "@ + r,
    }
}

/// Whether a list of appearances holds `mode`.
pub fn has_mode(modes: &Vec<Mode>, mode: Mode) -> (r: bool)
    ensures
        r == modes@.contains(mode),
{
    let mut i: usize = 0;
    while i < modes.len()
        invariant
            i <= modes@.len(),
            forall|k: int| 0 <= k < i ==> #[trigger] modes@[k] != mode,
        decreases modes@.len() - i,
    {
        if modes[i] == mode {
            assert(modes@[i as int] == mode);
            return true;
        }
        i = i + 1;
    }
    false
}

/// The profiles of a list that run on switching to `mode`, in order.
pub fn profiles_for(profiles: &Vec<Profile>, mode: Mode) -> (r: Vec<Profile>)
    ensures
        r.deep_view() == matching(profiles.deep_view(), mode),
{
    let ghost views = profiles.deep_view();
    let ghost keep = |p: ProfileView| p.when.contains(mode);
    let mut found: Vec<Profile> = Vec::new();
    let mut i: usize = 0;
    while i < profiles.len()
        invariant
            i <= profiles@.len(),
            views == profiles.deep_view(),
            keep == (|p: ProfileView| p.when.contains(mode)),
            found.deep_view() == views.take(i as int).filter(keep),
        decreases profiles@.len() - i,
    {
        let runs = has_mode(&profiles[i].when, mode);
        proof {
            assert(views.take(i + 1).drop_last() =~= views.take(i as int));
            assert(views.take(i + 1).last() == profiles@[i as int]@);
            reveal_with_fuel(Seq::filter, 1);
        }
        if runs {
            let ghost prior = found.deep_view();
            found.push(profiles[i].clone());
            assert(found.deep_view() =~= prior.push(profiles@[i as int]@));
        }
        i = i + 1;
    }
    assert(views.take(views.len() as int) =~= views);
    found
}

/// Whether the system must be asked to switch: unless it is known to show
/// `mode` already.
pub fn must_switch(current: &Result<Mode, String>, mode: Mode) -> (r: bool)
    ensures
        r == !(current matches Ok(m) && m == mode),
{
    match current {
        Ok(m) => *m != mode,
        Err(_) => true,
    }
}

/// How long to wait, in whole milliseconds, from `now` (nanoseconds) until the
/// event at `at`: at least one, at most the largest `u32`.
pub open spec fn delay_millis(at: int, now: int) -> int {
    let wait = if at - now > 1 { at - now } else { 1 };
    let millis = wait / 1_000_000;
    if millis < 1 {
        1
    } else if millis > u32::MAX {
        u32::MAX as int
    } else {
        millis
    }
}

/// The delay of a timer that fires at the given event.
pub fn timer_delay(event: &Event, now: &Zoned) -> (r: u32)
    ensures
        r == delay_millis(nanos_of(event.at) as int, nanos_of(*now) as int),
        r > 0,
{
    let at = zoned_nanos(&event.at);
    let current = zoned_nanos(now);
    millis_until(at, current)
}

/// The delay in milliseconds from `now` until `at`, both in nanoseconds.
pub fn millis_until(at: i128, now: i128) -> (r: u32)
    requires
        -2_000_000_000_000_000_000_000 < at < 2_000_000_000_000_000_000_000,
        -2_000_000_000_000_000_000_000 < now < 2_000_000_000_000_000_000_000,
    ensures
        r == delay_millis(at as int, now as int),
        r > 0,
{
    let wait = if at - now > 1 { at - now } else { 1 };
    let millis = wait / 1_000_000;
    if millis < 1 {
        1
    } else if millis > 0xffff_ffff {
        0xffff_ffff
    } else {
        millis as u32
    }
}

/// Whether a list of peers holds `peer`.
fn has_peer(peers: &Vec<usize>, peer: usize) -> (r: bool)
    ensures
        r == peers@.contains(peer),
{
    match peer_position(peers, peer) {
        Some(i) => {
            assert(peers@[i as int] == peer);
            true
        },
        None => false,
    }
}

/// Where a list of peers holds `peer`, if it does.
fn peer_position(peers: &Vec<usize>, peer: usize) -> (r: Option<usize>)
    ensures
        r is None <==> !peers@.contains(peer),
        r matches Some(i) ==> i < peers@.len() && peers@[i as int] == peer,
{
    let mut i: usize = 0;
    while i < peers.len()
        invariant
            i <= peers@.len(),
            forall|k: int| 0 <= k < i ==> #[trigger] peers@[k] != peer,
        decreases peers@.len() - i,
    {
        if peers[i] == peer {
            return Some(i);
        }
        i = i + 1;
    }
    None
}

/// Adding a peer not listed yet keeps the list free of repeats and adds it to the set.
proof fn lemma_push_fresh(s: Seq<usize>, x: usize)
    requires
        s.no_duplicates(),
        !s.contains(x),
    ensures
        s.push(x).no_duplicates(),
        Set::new(|p: usize| s.push(x).contains(p)) == Set::new(|p: usize| s.contains(p)).insert(x),
{
    let t = s.push(x);
    assert forall|k: int, l: int| 0 <= k < t.len() && 0 <= l < t.len() && k != l implies t[k] != t[l] by {
        if k == s.len() {
            assert(s.contains(t[l]) ==> t[l] != x);
            assert(s[l] == t[l]);
        } else if l == s.len() {
            assert(s[k] == t[k]);
        } else {
            assert(s[k] == t[k] && s[l] == t[l]);
        }
    }
    assert forall|p: usize| t.contains(p) <==> (s.contains(p) || p == x) by {
        if t.contains(p) {
            let k = choose|k: int| 0 <= k < t.len() && t[k] == p;
            if k < s.len() {
                assert(s[k] == p);
            }
        }
        if s.contains(p) {
            let k = choose|k: int| 0 <= k < s.len() && s[k] == p;
            assert(t[k] == p);
        }
        if p == x {
            assert(t[s.len() as int] == x);
        }
    }
    assert(Set::new(|p: usize| t.contains(p)) =~= Set::new(|p: usize| s.contains(p)).insert(x));
}

/// Taking out the only occurrence of a peer keeps the list free of repeats and
/// takes it out of the set.
proof fn lemma_remove_unique(s: Seq<usize>, i: int)
    requires
        s.no_duplicates(),
        0 <= i < s.len(),
    ensures
        s.remove(i).no_duplicates(),
        Set::new(|p: usize| s.remove(i).contains(p)) == Set::new(|p: usize| s.contains(p)).remove(s[i]),
{
    let t = s.remove(i);
    assert forall|k: int, l: int| 0 <= k < t.len() && 0 <= l < t.len() && k != l implies t[k] != t[l] by {
        let kk = if k < i { k } else { k + 1 };
        let ll = if l < i { l } else { l + 1 };
        assert(t[k] == s[kk] && t[l] == s[ll]);
    }
    assert forall|p: usize| t.contains(p) <==> (s.contains(p) && p != s[i]) by {
        if t.contains(p) {
            let k = choose|k: int| 0 <= k < t.len() && t[k] == p;
            let kk = if k < i { k } else { k + 1 };
            assert(s[kk] == p);
            assert(kk != i);
        }
        if s.contains(p) && p != s[i] {
            let k = choose|k: int| 0 <= k < s.len() && s[k] == p;
            assert(k != i);
            let kk = if k < i { k } else { k - 1 };
            assert(t[kk] == p);
        }
    }
    assert(Set::new(|p: usize| t.contains(p)) =~= Set::new(|p: usize| s.contains(p)).remove(s[i]));
}

impl Runtime {
    /// The transition planned last, if any.
    pub closed spec fn planned(&self) -> Option<Event> {
        self.next
    }

    /// The transition planned last, if any.
    pub fn next(&self) -> (r: &Option<Event>)
        ensures
            *r == self.planned(),
    {
        &self.next
    }

    /// The runtime's bookkeeping holds together.
    pub closed spec fn inv(&self) -> bool {
        &&& self.shortcut.inv()
        &&& self.peers@.no_duplicates()
    }

    /// A fresh runtime for the given configuration: nothing applied, nothing
    /// running, nobody listening.
    pub fn new(config: Config) -> (r: Runtime)
        ensures
            r.inv(),
            r@.config == config@,
            r@.shortcut is None,
            r@.applied is None,
            !r@.busy,
            r@.peers.is_empty(),
            r@.recording is None,
            r@.error is None,
            r.planned() is None,
    {
        let r = Runtime {
            config,
            shortcut: Shortcut::new(),
            next: None,
            applied: None,
            busy: false,
            peers: Vec::new(),
            recording: None,
            error: None,
        };
        assert(r@.peers =~= Set::<usize>::empty());
        r
    }

    /// The appearance applied last, if any.
    pub fn applied(&self) -> (r: Option<Mode>)
        ensures
            r == self@.applied,
    {
        self.applied
    }

    /// Sets the appearance known to be shown, as when it is read from the system.
    pub fn set_applied(&mut self, mode: Option<Mode>)
        requires
            old(self).inv(),
        ensures
            final(self).inv(),
            final(self)@ == (RuntimeView { applied: mode, ..old(self)@ }),
            final(self).planned() == old(self).planned(),
    {
        self.applied = mode;
    }

    /// Whether a pressed hotkey with this id is the registered shortcut.
    pub fn shortcut_matches(&self, id: u32) -> (r: bool)
        ensures
            r == (self@.shortcut == Some(id)),
    {
        self.shortcut.matches(id)
    }

    /// Whether configurations are being run.
    pub fn is_busy(&self) -> (r: bool)
        ensures
            r == self@.busy,
    {
        self.busy
    }

    /// Marks configurations as being run, or not.
    pub fn set_busy(&mut self, busy: bool)
        requires
            old(self).inv(),
        ensures
            final(self).inv(),
            final(self)@ == (RuntimeView { busy, ..old(self)@ }),
            final(self).planned() == old(self).planned(),
    {
        self.busy = busy;
    }

    /// The peer that records a new shortcut, if any.
    pub fn recording(&self) -> (r: Option<usize>)
        ensures
            r == self@.recording,
    {
        self.recording
    }

    /// The peers that listen, in the order they subscribed.
    pub fn peers(&self) -> (r: Vec<usize>)
        requires
            self.inv(),
        ensures
            forall|p: usize| r@.contains(p) <==> self@.peers.contains(p),
    {
        self.peers.clone()
    }

    /// The system now shows `mode`. When that is new and nothing runs, the
    /// profiles for `mode` are handed back to be run, and the runtime counts as
    /// busy until `finished`; a change while busy is taken in without a run.
    pub fn changed(&mut self, mode: Mode) -> (r: Option<Vec<Profile>>)
        requires
            old(self).inv(),
        ensures
            final(self).inv(),
            final(self)@ == after_change(old(self)@, mode),
            final(self).planned() == old(self).planned(),
            r is Some <==> starts_run(old(self)@, mode),
            r matches Some(ps) ==> ps.deep_view() == matching(old(self)@.config.profiles, mode),
    {
        let changed = match self.applied {
            Some(m) => m != mode,
            None => true,
        };
        self.applied = Some(mode);
        if !changed || self.busy {
            return None;
        }
        let profiles = profiles_for(&self.config.profiles, mode);
        if profiles.len() == 0 {
            return None;
        }
        self.busy = true;
        Some(profiles)
    }

    /// Starts a run of the profile named `name`: hands it back and counts as
    /// busy, unless it does not exist or something runs already.
    pub fn run(&mut self, name: &str) -> (r: Result<Profile, String>)
        requires
            old(self).inv(),
        ensures
            final(self).inv(),
            final(self).planned() == old(self).planned(),
            !crate::config::has_name(old(self)@.config.profiles, name@) ==> {
                &&& r matches Err(e) && e@ == not_found_message(name@)
                &&& final(self)@ == old(self)@
            },
            crate::config::has_name(old(self)@.config.profiles, name@) && old(self)@.busy ==> {
                &&& r matches Err(e) && e@ == running_message()
                &&& final(self)@ == old(self)@
            },
            crate::config::has_name(old(self)@.config.profiles, name@) && !old(self)@.busy ==> {
                &&& r matches Ok(p) && exists|i: int|
                    crate::config::position_of(old(self)@.config.profiles, name@, i)
                    && p@ == #[trigger] old(self)@.config.profiles[i]
                &&& final(self)@ == (RuntimeView { busy: true, ..old(self)@ })
            },
    {
        let profile = match self.config.profile(name) {
            Some(p) => p.clone(),
            None => {
                return Err(String::from_str("Configuration ").concat(debug_text(name).as_str()).concat(" was not found."));
            },
        };
        if self.busy {
            return Err(String::from_str("A configuration is already running."));
        }
        self.busy = true;
        Ok(profile)
    }

    /// A run ended (or could not be started): nothing runs any more.
    pub fn finished(&mut self)
        requires
            old(self).inv(),
        ensures
            final(self).inv(),
            final(self)@ == after_finish(old(self)@),
            final(self).planned() == old(self).planned(),
    {
        self.busy = false;
    }

    /// Keeps an error for the next peer to subscribe when nobody listens now.
    pub fn report(&mut self, error: String)
        requires
            old(self).inv(),
        ensures
            final(self).inv(),
            final(self)@ == after_report(old(self)@, error@),
            final(self).planned() == old(self).planned(),
    {
        if self.peers.len() == 0 {
            assert(self@.peers =~= Set::<usize>::empty());
            self.error = Some(error);
        } else {
            assert(self@.peers.contains(self.peers@[0]));
        }
    }

    /// `peer` listens from now on; hands back the error kept while nobody listened.
    pub fn subscribe(&mut self, peer: usize) -> (r: Option<String>)
        requires
            old(self).inv(),
        ensures
            final(self).inv(),
            final(self)@ == after_subscribe(old(self)@, peer),
            final(self).planned() == old(self).planned(),
            match r {
                Some(e) => old(self)@.error == Some(e@),
                None => old(self)@.error is None,
            },
    {
        let ghost before = self.peers@;
        if !has_peer(&self.peers, peer) {
            self.peers.push(peer);
            proof {
                lemma_push_fresh(before, peer);
            }
        } else {
            assert(Set::new(|p: usize| before.contains(p)).insert(peer) =~= Set::new(|p: usize| before.contains(p)));
        }
        self.error.take()
    }

    /// Forgets a listener whose connection is gone; nothing else changes.
    pub fn disconnect(&mut self, peer: usize)
        requires
            old(self).inv(),
        ensures
            final(self).inv(),
            final(self)@ == (RuntimeView { peers: old(self)@.peers.remove(peer), ..old(self)@ }),
            final(self).planned() == old(self).planned(),
    {
        let ghost before = self.peers@;
        match peer_position(&self.peers, peer) {
            Some(i) => {
                self.peers.remove(i);
                proof {
                    lemma_remove_unique(before, i as int);
                }
            },
            None => {
                assert(Set::new(|p: usize| before.contains(p)).remove(peer) =~= Set::new(|p: usize| before.contains(p)));
            },
        }
    }

    /// A peer's connection closed: it no longer listens, and if it was recording
    /// a shortcut, the configured shortcut is registered again. Hands back the
    /// error of that registration, if any, to be reported.
    pub fn closed(&mut self, peer: usize) -> (r: Option<String>)
        requires
            old(self).inv(),
        ensures
            final(self).inv(),
            final(self).planned() == old(self).planned(),
            final(self)@.peers == old(self)@.peers.remove(peer),
            final(self)@.recording == if old(self)@.recording == Some(peer) { None } else { old(self)@.recording },
            final(self)@.config == old(self)@.config,
            final(self)@.applied == old(self)@.applied,
            final(self)@.busy == old(self)@.busy,
            final(self)@.error == old(self)@.error,
            old(self)@.recording != Some(peer) ==> r is None && final(self)@.shortcut == old(self)@.shortcut,
            old(self)@.recording == Some(peer) ==> {
                &&& r is None ==> reads_as(old(self)@.config.shortcut, final(self)@.shortcut)
                &&& r is None ==> (final(self)@.shortcut is Some <==> old(self)@.config.shortcut.len() != 0)
                &&& old(self)@.config.shortcut.len() == 0 && old(self)@.shortcut is None ==> r is None
                &&& r is Some ==> final(self)@.shortcut == old(self)@.shortcut || final(self)@.shortcut is None
            },
    {
        self.disconnect(peer);
        if self.recording == Some(peer) {
            self.recording = None;
            match self.shortcut.register(self.config.shortcut.as_str()) {
                Ok(()) => None,
                Err(error) => Some(error),
            }
        } else {
            None
        }
    }

    /// Registers the shortcut a peer asked for; once that succeeds, an empty
    /// shortcut means the peer is recording a new one.
    pub fn set_shortcut(&mut self, peer: usize, text: &str) -> (r: Result<(), String>)
        requires
            old(self).inv(),
        ensures
            final(self).inv(),
            final(self).planned() == old(self).planned(),
            final(self)@.config == old(self)@.config,
            final(self)@.applied == old(self)@.applied,
            final(self)@.busy == old(self)@.busy,
            final(self)@.peers == old(self)@.peers,
            final(self)@.error == old(self)@.error,
            r is Ok ==> final(self)@.recording == if text@.len() == 0 { Some(peer) } else { None },
            r is Err ==> final(self)@.recording == old(self)@.recording,
            text@.len() == 0 && old(self)@.shortcut is None ==> r is Ok && final(self)@.shortcut is None,
            r is Ok ==> reads_as(text@, final(self)@.shortcut),
            text@.len() != 0 && !or_pair(text@) && hotkey_reading(text@) is Err
                ==> (r matches Err(e) && e@ == hotkey_reading(text@)->Err_0) && final(self)@ == old(self)@,
            r is Ok && text@.len() != 0 ==> final(self)@.shortcut is Some,
            r is Ok && text@.len() == 0 ==> final(self)@.shortcut is None,
    {
        let result = self.shortcut.register(text);
        if result.is_ok() {
            self.recording = if text.is_empty() { Some(peer) } else { None };
        }
        result
    }

    /// Registers the configured shortcut, as at launch.
    pub fn register_configured(&mut self) -> (r: Result<(), String>)
        requires
            old(self).inv(),
        ensures
            final(self).inv(),
            final(self).planned() == old(self).planned(),
            final(self)@ == (RuntimeView { shortcut: final(self)@.shortcut, ..old(self)@ }),
            r is Ok && old(self)@.config.shortcut.len() != 0 ==> final(self)@.shortcut is Some,
            r is Ok && old(self)@.config.shortcut.len() == 0 ==> final(self)@.shortcut is None,
            old(self)@.config.shortcut.len() == 0 && old(self)@.shortcut is None ==> r is Ok,
            r is Ok ==> reads_as(old(self)@.config.shortcut, final(self)@.shortcut),
    {
        self.shortcut.register(self.config.shortcut.as_str())
    }

    /// The first step of saving `config`: checks it and registers its shortcut.
    /// Once this succeeds the file is written, then `saved` or `save_failed`
    /// follows.
    pub fn save(&mut self, config: &Config) -> (r: Result<(), String>)
        requires
            old(self).inv(),
        ensures
            final(self).inv(),
            final(self).planned() == old(self).planned(),
            final(self)@ == (RuntimeView { shortcut: final(self)@.shortcut, ..old(self)@ }),
            !valid_profiles(config@.profiles) ==> final(self)@ == old(self)@ && (r matches Err(e)
                && exists|i: int| first_problem(config@.profiles, i) && e@ == #[trigger] problem_message(config@.profiles, i)),
            r is Ok ==> valid_profiles(config@.profiles),
            r is Ok && config@.shortcut.len() != 0 ==> final(self)@.shortcut is Some,
            r is Ok && config@.shortcut.len() == 0 ==> final(self)@.shortcut is None,
            valid_profiles(config@.profiles) && config@.shortcut.len() == 0 && old(self)@.shortcut is None ==> r is Ok,
            r is Ok ==> reads_as(config@.shortcut, final(self)@.shortcut),
            valid_profiles(config@.profiles) && config@.shortcut.len() != 0 && !or_pair(config@.shortcut)
                && hotkey_reading(config@.shortcut) is Err
                ==> (r matches Err(e) && e@ == hotkey_reading(config@.shortcut)->Err_0) && final(self)@ == old(self)@,
            valid_profiles(config@.profiles) && r is Err ==> final(self)@.shortcut == old(self)@.shortcut
                || final(self)@.shortcut is None,
    {
        match config.validate() {
            Ok(()) => {},
            Err(error) => {
                return Err(error);
            },
        }
        self.shortcut.register(config.shortcut.as_str())
    }

    /// The saved configuration was written: it is now in force, and no peer
    /// records a shortcut any more.
    pub fn saved(&mut self, config: Config)
        requires
            old(self).inv(),
        ensures
            final(self).inv(),
            final(self).planned() == old(self).planned(),
            final(self)@ == (RuntimeView { config: config@, recording: None, ..old(self)@ }),
    {
        self.recording = None;
        self.config = config;
    }

    /// The saved configuration could not be written: the configured shortcut is
    /// registered again, and the message tells both failures where that fails too.
    pub fn save_failed(&mut self, error: String) -> (r: String)
        requires
            old(self).inv(),
        ensures
            final(self).inv(),
            final(self).planned() == old(self).planned(),
            final(self)@ == (RuntimeView { shortcut: final(self)@.shortcut, ..old(self)@ }),
            r@ == error@ || exists|restore: Seq<char>| r@ == #[trigger] save_message(error@, Some(restore)),
            old(self)@.config.shortcut.len() == 0 && old(self)@.shortcut is None ==> r@ == error@
                && final(self)@ == old(self)@,
            r@ == error@ ==> reads_as(old(self)@.config.shortcut, final(self)@.shortcut),
            r@ == error@ ==> (final(self)@.shortcut is Some <==> old(self)@.config.shortcut.len() != 0),
            r@ != error@ ==> (exists|restore: Seq<char>| r@ == #[trigger] save_message(error@, Some(restore)))
                && (final(self)@.shortcut == old(self)@.shortcut || final(self)@.shortcut is None),
    {
        match self.shortcut.register(self.config.shortcut.as_str()) {
            Ok(()) => error,
            Err(restore) => {
                let ghost before = error@;
                let r = error.concat("\nShortcut: ").concat(restore.as_str());
                assert(r@ == save_message(before, Some(restore@)));
                proof {
                    reveal_strlit("\nShortcut: ");
                    assert(r@.len() > before.len());
                }
                r
            },
        }
    }

    /// The mode to apply at launch: the schedule's current one, where the
    /// schedule applies on launch.
    pub fn launch_mode(&self, now: &Zoned) -> (r: Option<Mode>)
        ensures
            r == if self@.config.schedule.apply_on_launch { current_mode(self@.config.schedule, *now) } else { None },
            !self@.config.schedule.apply_on_launch ==> r is None,
            !self@.config.schedule.enabled ==> r is None,
            r matches Some(m) ==> scheduled_mode(self@.config.schedule.rules, m),
    {
        if self.config.schedule.apply_on_launch {
            self.config.schedule.current(now)
        } else {
            None
        }
    }

    /// The mode the schedule calls for at `now`.
    pub fn scheduled(&self, now: &Zoned) -> (r: Option<Mode>)
        ensures
            r == current_mode(self@.config.schedule, *now),
            !self@.config.schedule.enabled ==> r is None,
            r matches Some(m) ==> scheduled_mode(self@.config.schedule.rules, m),
    {
        self.config.schedule.current(now)
    }

    /// Whether the planned transition was missed (the clock is past it), as
    /// after sleep or a change of the clock.
    pub fn missed(&self, now: &Zoned) -> (r: bool)
        ensures
            r == (self.planned() matches Some(e) && nanos_of(e.at) <= nanos_of(*now)),
    {
        match &self.next {
            Some(event) => zoned_nanos(&event.at) <= zoned_nanos(now),
            None => false,
        }
    }

    /// The state to tell the windows, given the mode the system shows and
    /// whether the program starts at login.
    pub fn state(&self, now: &Zoned, mode: Result<Mode, String>, launch_at_login: bool) -> (r: State)
        ensures
            r.config@ == self@.config,
            mode_view(r.mode) == mode_view(mode),
            r.launch_at_login == launch_at_login,
            r.busy == self@.busy,
            r.next == next_event(self@.config.schedule, *now),
            !self@.config.schedule.enabled ==> r.next is None,
            r.next matches Some(e) ==> scheduled_mode(self@.config.schedule.rules, e.mode),
    {
        State {
            config: self.config.clone(),
            mode,
            next: self.config.schedule.next(now),
            launch_at_login,
            busy: self.busy,
        }
    }

    /// Plans the next transition after `now`, keeps it, and hands it back.
    pub fn schedule(&mut self, now: &Zoned) -> (r: Option<Event>)
        requires
            old(self).inv(),
        ensures
            final(self).inv(),
            final(self)@ == old(self)@,
            r == next_event(old(self)@.config.schedule, *now),
            final(self).planned() == r,
            r is Some <==> final(self).planned() is Some,
            r matches Some(e) ==> final(self).planned() matches Some(n) && n.at == e.at && n.mode == e.mode
                && scheduled_mode(old(self)@.config.schedule.rules, e.mode),
            !old(self)@.config.schedule.enabled ==> r is None,
    {
        let next = self.config.schedule.next(now);
        self.next = match &next {
            Some(event) => Some(Event { at: zoned_clone(&event.at), mode: event.mode }),
            None => None,
        };
        next
    }
}

/// An error reported while nobody listens is handed to the next peer that
/// subscribes, and only once.
pub proof fn kept_error_reaches_next_subscriber(s: RuntimeView, error: Seq<char>, peer: usize)
    requires
        s.peers.is_empty(),
    ensures
        after_report(s, error).error == Some(error),
        after_subscribe(after_report(s, error), peer).error is None,
        after_subscribe(after_report(s, error), peer).peers.contains(peer),
{
}

/// While configurations run, a change of appearance is taken in (it becomes the
/// applied mode) but starts no run.
pub proof fn changes_while_busy_start_nothing(s: RuntimeView, mode: Mode)
    requires
        s.busy,
    ensures
        !starts_run(s, mode),
        after_change(s, mode).applied == Some(mode),
        after_change(s, mode).busy,
{
}

/// A change taken in while busy is consumed: once the run finishes, the same
/// change starts nothing.
pub proof fn consumed_change_stays_consumed(s: RuntimeView, mode: Mode)
    ensures
        !starts_run(after_finish(after_change(s, mode)), mode),
        !after_finish(after_change(s, mode)).busy,
{
}

/// Switching to the mode already applied starts nothing.
pub proof fn repeated_change_starts_nothing(s: RuntimeView, mode: Mode)
    ensures
        !starts_run(after_change(s, mode), mode),
{
}

/// A run only starts on a change to a new mode with some profile for it, and
/// afterwards the runtime is busy.
pub proof fn run_starts_only_when_idle(s: RuntimeView, mode: Mode)
    requires
        starts_run(s, mode),
    ensures
        !s.busy,
        after_change(s, mode).busy,
        matching(s.config.profiles, mode).len() > 0,
{
}


/// A switch of appearance, by hand or otherwise, leaves the configuration, and
/// with it the schedule, as it was: at any moment the transition planned next,
/// and the mode the schedule calls for, are the ones planned without it.
pub proof fn changes_keep_the_schedule(s: RuntimeView, mode: Mode, now: Zoned)
    ensures
        after_change(s, mode).config == s.config,
        after_finish(after_change(s, mode)).config == s.config,
        next_event(after_change(s, mode).config.schedule, now) == next_event(s.config.schedule, now),
        current_mode(after_change(s, mode).config.schedule, now) == current_mode(s.config.schedule, now),
{
}

/// At most one run is under way: while one runs, changes of appearance keep
/// the runtime busy and start no other, and only the end of the run makes it
/// idle again.
pub proof fn one_run_at_a_time(s: RuntimeView, first: Mode, second: Mode)
    requires
        s.busy,
    ensures
        !starts_run(s, first),
        after_change(s, first).busy,
        !starts_run(after_change(s, first), second),
        !after_finish(after_change(s, first)).busy,
{
}

} // verus!
