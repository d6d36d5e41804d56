use vstd::prelude::*;

use global_hotkey::hotkey::HotKey;
use global_hotkey::GlobalHotKeyManager;

verus! {

#[verifier::external_type_specification]
#[verifier::external_body]
pub struct ExGlobalHotKeyManager(GlobalHotKeyManager);

#[verifier::external_type_specification]
#[verifier::external_body]
pub struct ExHotKey(HotKey);

/// Whether a text holds the letters `or` side by side, in either case.
pub open spec fn or_pair(text: Seq<char>) -> bool
    decreases text.len(),
{
    if text.len() < 2 {
        false
    } else {
        ((text[0] == 'o' || text[0] == 'O') && (text[1] == 'r' || text[1] == 'R')) || or_pair(text.drop_first())
    }
}

/// What global_hotkey's `HotKey::from_str` reads from a shortcut text: the
/// hotkey's id (`HotKey::id`) and canonical text (`HotKey::into_string`), or
/// the message of the error. Only the words that mean Command on the Mac and
/// Control elsewhere (`CmdOrCtrl` and its spellings) are read differently by
/// platform, and each of them holds `or`; so the reading is stated only of
/// texts without `or`, which every platform reads alike.
pub uninterp spec fn hotkey_reading(text: Seq<char>) -> Result<(u32, Seq<char>), Seq<char>>;

/// Whether the shortcut registered (by id) is the one `text` names: none for
/// an empty text, the hotkey global_hotkey reads for a text without `or`, and
/// some hotkey for another.
pub open spec fn reads_as(text: Seq<char>, id: Option<u32>) -> bool {
    if text.len() == 0 {
        id is None
    } else if or_pair(text) {
        id is Some
    } else {
        hotkey_reading(text) is Ok && id == Some(hotkey_reading(text)->Ok_0.0)
    }
}

/// A shortcut text read by global_hotkey: the key, its id and its canonical
/// text. Only `parse_hotkey` makes one, so the id is the key's.
pub struct Parsed {
    key: HotKey,
    id: u32,
    text: String,
}

impl Parsed {
    /// The hotkey's id.
    pub closed spec fn id_of(&self) -> u32 {
        self.id
    }

    /// The hotkey's canonical text.
    pub closed spec fn text_of(&self) -> Seq<char> {
        self.text@
    }

    /// The hotkey's id.
    pub fn id(&self) -> (r: u32)
        ensures
            r == self.id_of(),
    {
        self.id
    }

    /// The hotkey's canonical text.
    pub fn text(&self) -> (r: String)
        ensures
            r@ == self.text_of(),
    {
        self.text.clone()
    }
}

/// `HotKey::from_str`: reads a shortcut text such as `ctrl+shift+KeyD`. The
/// result is converted to its id (`HotKey::id`) and canonical text
/// (`HotKey::into_string`), the error to its message. Stated, of a text
/// without `or`: the outcome is `hotkey_reading` of the text.
#[verifier::external_body]
pub(crate) fn parse_hotkey(text: &str) -> (r: Result<Parsed, String>)
    ensures
        !or_pair(text@) ==> match r {
            Ok(p) => hotkey_reading(text@) == Ok::<(u32, Seq<char>), Seq<char>>((p.id_of(), p.text_of())),
            Err(e) => hotkey_reading(text@) == Err::<(u32, Seq<char>), Seq<char>>(e@),
        },
{
    match <HotKey as std::str::FromStr>::from_str(text) {
        Ok(key) => Ok(Parsed { key, id: key.id(), text: key.into_string() }),
        Err(error) => Err(error.to_string()),
    }
}

/// `GlobalHotKeyManager::new`: connects to the platform's shortcut service.
/// Nothing is stated: the outcome rests on the platform.
#[verifier::external_body]
fn new_manager() -> Result<GlobalHotKeyManager, String> {
    match GlobalHotKeyManager::new() {
        Ok(manager) => Ok(manager),
        Err(error) => Err(error.to_string()),
    }
}

/// `GlobalHotKeyManager::register`. Nothing is stated: the outcome rests on
/// the platform and on other programs.
#[verifier::external_body]
fn register_key(manager: &GlobalHotKeyManager, key: HotKey) -> Result<(), String> {
    match manager.register(key) {
        Ok(()) => Ok(()),
        Err(error) => Err(error.to_string()),
    }
}

/// `GlobalHotKeyManager::unregister`. Nothing is stated: the outcome rests on
/// the platform.
#[verifier::external_body]
fn unregister_key(manager: &GlobalHotKeyManager, key: HotKey) -> Result<(), String> {
    match manager.unregister(key) {
        Ok(()) => Ok(()),
        Err(error) => Err(error.to_string()),
    }
}

/// The global shortcut registered with the platform, if any.
///
/// A hotkey is kept together with its id. global_hotkey builds the id from the
/// modifiers and the key code, one for one, so that two hotkeys are equal
/// exactly when their ids are; the id stands for the hotkey in comparisons.
pub struct Shortcut {
    manager: Option<GlobalHotKeyManager>,
    hotkey: Option<HotKey>,
    id: Option<u32>,
}

impl View for Shortcut {
    type V = Option<u32>;

    /// The id of the registered hotkey.
    closed spec fn view(&self) -> Option<u32> {
        self.id
    }
}

impl Shortcut {
    /// A hotkey is kept with its id, and only once a manager exists.
    pub closed spec fn inv(&self) -> bool {
        &&& self.hotkey.is_some() == self.id.is_some()
        &&& self.hotkey.is_some() ==> self.manager.is_some()
    }

    /// The platform's service has been reached.
    pub closed spec fn manager_ready(&self) -> bool {
        self.manager.is_some()
    }

    /// No shortcut registered, and no connection to the platform made yet.
    pub fn new() -> (r: Shortcut)
        ensures
            r.inv(),
            r@ is None,
    {
        Shortcut { manager: None, hotkey: None, id: None }
    }

    /// Registers the shortcut written in `text` in place of the current one;
    /// an empty text removes the current one. A text that global_hotkey cannot
    /// read fails with its message; one it reads is registered as
    /// `register_parsed` says.
    pub fn register(&mut self, text: &str) -> (r: Result<(), String>)
        requires
            old(self).inv(),
        ensures
            final(self).inv(),
            text@.len() == 0 && old(self)@ is None ==> r is Ok && final(self)@ is None,
            r is Ok ==> reads_as(text@, final(self)@),
            text@.len() == 0 && r is Ok ==> final(self)@ is None,
            text@.len() != 0 && r is Ok ==> final(self)@ is Some,
            text@.len() == 0 && r is Err ==> final(self)@ == old(self)@,
            text@.len() != 0 && r is Err ==> final(self)@ == old(self)@ || final(self)@ is None,
            text@.len() != 0 && !or_pair(text@) && hotkey_reading(text@) is Err
                ==> (r matches Err(e) && e@ == hotkey_reading(text@)->Err_0) && final(self)@ == old(self)@,
            text@.len() != 0 && !or_pair(text@) && hotkey_reading(text@) is Ok
                && old(self)@ == Some(hotkey_reading(text@)->Ok_0.0) ==> r is Ok && final(self)@ == old(self)@,
    {
        if text.is_empty() {
            match self.hotkey {
                Some(old) => {
                    match &self.manager {
                        Some(manager) => {
                            match unregister_key(manager, old) {
                                Ok(()) => {},
                                Err(error) => {
                                    return Err(error);
                                },
                            }
                        },
                        None => {},
                    }
                    self.hotkey = None;
                    self.id = None;
                },
                None => {},
            }
            return Ok(());
        }
        match parse_hotkey(text) {
            Ok(parsed) => self.register_parsed(parsed),
            Err(error) => Err(error),
        }
    }

    /// Registers a hotkey that global_hotkey read, in place of the current
    /// one. The same hotkey again succeeds at once, with no call to the
    /// platform. Otherwise the platform's service is reached (once), the old
    /// hotkey unregistered and the new one registered; where one of these
    /// fails, the state is as `settle` says (the old hotkey stays where the
    /// failure comes before the new one is offered).
    pub fn register_parsed(&mut self, parsed: Parsed) -> (r: Result<(), String>)
        requires
            old(self).inv(),
        ensures
            final(self).inv(),
            old(self)@ == Some(parsed.id_of()) ==> r is Ok && final(self)@ == old(self)@,
            r is Ok ==> final(self)@ == Some(parsed.id_of()),
            r is Err ==> final(self)@ == old(self)@ || final(self)@ is None,
    {
        match self.id {
            Some(id) => {
                if id == parsed.id {
                    return Ok(());
                }
            },
            None => {},
        }
        if self.manager.is_none() {
            match new_manager() {
                Ok(manager) => {
                    self.manager = Some(manager);
                },
                Err(error) => {
                    return Err(error);
                },
            }
        }
        let manager = match &self.manager {
            Some(manager) => manager,
            None => {
                return Err(String::new());
            },
        };
        match self.hotkey {
            Some(old) => match unregister_key(manager, old) {
                Ok(()) => {},
                Err(error) => {
                    return Err(error);
                },
            },
            None => {},
        }
        let registered = register_key(manager, parsed.key);
        let restored = match (&registered, self.hotkey) {
            (Err(_), Some(old)) => register_key(manager, old).is_ok(),
            _ => false,
        };
        self.settle(parsed, registered, restored)
    }

    /// The state after the platform answered the registration of `parsed`:
    /// registered, it is the shortcut; refused, the old hotkey stays where it
    /// was registered again (`restored`), and none is left otherwise. The
    /// answer is handed back.
    fn settle(&mut self, parsed: Parsed, registered: Result<(), String>, restored: bool) -> (r: Result<(), String>)
        requires
            old(self).inv(),
            old(self).manager_ready(),
        ensures
            final(self).inv(),
            r == registered,
            registered is Ok ==> final(self)@ == Some(parsed.id_of()),
            registered is Err && restored ==> final(self)@ == old(self)@,
            registered is Err && !restored ==> final(self)@ is None,
    {
        if registered.is_ok() {
            self.hotkey = Some(parsed.key);
            self.id = Some(parsed.id);
        } else if !restored {
            self.hotkey = None;
            self.id = None;
        }
        registered
    }

    /// Whether a pressed hotkey with this id is the registered shortcut.
    pub fn matches(&self, id: u32) -> (r: bool)
        ensures
            r == (self@ == Some(id)),
    {
        match self.id {
            Some(current) => current == id,
            None => false,
        }
    }
}

impl Default for Shortcut {
    fn default() -> (r: Shortcut)
        ensures
            r.inv(),
            r@ is None,
    {
        Shortcut::new()
    }
}

} // verus!
