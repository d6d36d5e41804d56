use vstd::prelude::*;

use crate::shortcut::{hotkey_reading, or_pair, parse_hotkey};
use crate::text::{decimal, push_char, push_decimal};

verus! {

/// The keys that only modify another: Shift, Control and Alt (either side),
/// and the Windows keys.
pub open spec fn modifier_vk(vk: u16) -> bool {
    ||| vk == 0x10 || vk == 0x11 || vk == 0x12
    ||| vk == 0xA0 || vk == 0xA1 || vk == 0xA2 || vk == 0xA3 || vk == 0xA4 || vk == 0xA5
    ||| vk == 0x5B || vk == 0x5C
}

/// The name global_hotkey knows a Windows virtual key by, for the keys that
/// are not letters, digits, function keys or number-pad digits; `extended`
/// tells the number pad's Enter from the main one.
pub open spec fn named_vk(vk: u16, extended: bool) -> Option<Seq<char>> {
    if vk == 0x08 {
        Some("Backspace"@)
    } else if vk == 0x09 {
        Some("Tab"@)
    } else if vk == 0x20 {
        Some("Space"@)
    } else if vk == 0x0D && extended {
        Some("NumpadEnter"@)
    } else if vk == 0x0D {
        Some("Enter"@)
    } else if vk == 0x1B {
        Some("Escape"@)
    } else if vk == 0x14 {
        Some("CapsLock"@)
    } else if vk == 0x21 {
        Some("PageUp"@)
    } else if vk == 0x22 {
        Some("PageDown"@)
    } else if vk == 0x24 {
        Some("Home"@)
    } else if vk == 0x23 {
        Some("End"@)
    } else if vk == 0x25 {
        Some("Left"@)
    } else if vk == 0x27 {
        Some("Right"@)
    } else if vk == 0x26 {
        Some("Up"@)
    } else if vk == 0x28 {
        Some("Down"@)
    } else if vk == 0x2D {
        Some("Insert"@)
    } else if vk == 0x2E {
        Some("Delete"@)
    } else if vk == 0x2C {
        Some("PrintScreen"@)
    } else if vk == 0x90 {
        Some("NumLock"@)
    } else if vk == 0x91 {
        Some("ScrollLock"@)
    } else if vk == 0x13 {
        Some("Pause"@)
    } else if vk == 0x6B {
        Some("NumpadAdd"@)
    } else if vk == 0x6D {
        Some("NumpadSubtract"@)
    } else if vk == 0x6A {
        Some("NumpadMultiply"@)
    } else if vk == 0x6F {
        Some("NumpadDivide"@)
    } else if vk == 0x6E {
        Some("NumpadDecimal"@)
    } else if vk == 0xBB {
        Some("Equal"@)
    } else if vk == 0xBD {
        Some("Minus"@)
    } else if vk == 0xBC {
        Some("Comma"@)
    } else if vk == 0xBE {
        Some("Period"@)
    } else if vk == 0xBA {
        Some("Semicolon"@)
    } else if vk == 0xBF {
        Some("Slash"@)
    } else if vk == 0xC0 {
        Some("Backquote"@)
    } else if vk == 0xDB {
        Some("BracketLeft"@)
    } else if vk == 0xDC {
        Some("Backslash"@)
    } else if vk == 0xDD {
        Some("BracketRight"@)
    } else if vk == 0xDE {
        Some("Quote"@)
    } else if vk == 0xAE {
        Some("AudioVolumeDown"@)
    } else if vk == 0xAF {
        Some("AudioVolumeUp"@)
    } else if vk == 0xAD {
        Some("AudioVolumeMute"@)
    } else if vk == 0xFA {
        Some("MediaPlay"@)
    } else if vk == 0xB3 {
        Some("MediaPlayPause"@)
    } else if vk == 0xB2 {
        Some("MediaStop"@)
    } else if vk == 0xB0 {
        Some("MediaTrackNext"@)
    } else if vk == 0xB1 {
        Some("MediaTrackPrevious"@)
    } else {
        None
    }
}

/// How a pressed Windows virtual key reads in a shortcut.
pub enum KeyReading {
    /// A modifier, which is no key of its own.
    Modifier,
    /// A key with this name.
    Key(Seq<char>),
    /// A key that no shortcut can use.
    Unsupported,
}

/// How a Windows virtual key reads in a shortcut.
pub open spec fn vk_reading(vk: u16, extended: bool) -> KeyReading {
    if modifier_vk(vk) {
        KeyReading::Modifier
    } else if (0x41 <= vk <= 0x5A) || (0x30 <= vk <= 0x39) {
        KeyReading::Key(seq![(vk as u8) as char])
    } else if 0x70 <= vk <= 0x87 {
        KeyReading::Key("F"@ + decimal((vk - 0x70 + 1) as nat))
    } else if 0x60 <= vk <= 0x69 {
        KeyReading::Key("Numpad"@ + decimal((vk - 0x60) as nat))
    } else {
        match named_vk(vk, extended) {
            Some(name) => KeyReading::Key(name),
            None => KeyReading::Unsupported,
        }
    }
}

/// The message for a key that no shortcut can use.
pub open spec fn unsupported_message() -> Seq<char> {
    "This key cannot be used as a global shortcut."@
}

/// Looks up the name of a named Windows virtual key.
fn named_vk_text(vk: u16, extended: bool) -> (r: Option<&'static str>)
    ensures
        match (r, named_vk(vk, extended)) {
            (Some(a), Some(b)) => a@ == b,
            (None, None) => true,
            _ => false,
        },
{
    if vk == 0x08 {
        Some("Backspace")
    } else if vk == 0x09 {
        Some("Tab")
    } else if vk == 0x20 {
        Some("Space")
    } else if vk == 0x0D && extended {
        Some("NumpadEnter")
    } else if vk == 0x0D {
        Some("Enter")
    } else if vk == 0x1B {
        Some("Escape")
    } else if vk == 0x14 {
        Some("CapsLock")
    } else if vk == 0x21 {
        Some("PageUp")
    } else if vk == 0x22 {
        Some("PageDown")
    } else if vk == 0x24 {
        Some("Home")
    } else if vk == 0x23 {
        Some("End")
    } else if vk == 0x25 {
        Some("Left")
    } else if vk == 0x27 {
        Some("Right")
    } else if vk == 0x26 {
        Some("Up")
    } else if vk == 0x28 {
        Some("Down")
    } else if vk == 0x2D {
        Some("Insert")
    } else if vk == 0x2E {
        Some("Delete")
    } else if vk == 0x2C {
        Some("PrintScreen")
    } else if vk == 0x90 {
        Some("NumLock")
    } else if vk == 0x91 {
        Some("ScrollLock")
    } else if vk == 0x13 {
        Some("Pause")
    } else if vk == 0x6B {
        Some("NumpadAdd")
    } else if vk == 0x6D {
        Some("NumpadSubtract")
    } else if vk == 0x6A {
        Some("NumpadMultiply")
    } else if vk == 0x6F {
        Some("NumpadDivide")
    } else if vk == 0x6E {
        Some("NumpadDecimal")
    } else if vk == 0xBB {
        Some("Equal")
    } else if vk == 0xBD {
        Some("Minus")
    } else if vk == 0xBC {
        Some("Comma")
    } else if vk == 0xBE {
        Some("Period")
    } else if vk == 0xBA {
        Some("Semicolon")
    } else if vk == 0xBF {
        Some("Slash")
    } else if vk == 0xC0 {
        Some("Backquote")
    } else if vk == 0xDB {
        Some("BracketLeft")
    } else if vk == 0xDC {
        Some("Backslash")
    } else if vk == 0xDD {
        Some("BracketRight")
    } else if vk == 0xDE {
        Some("Quote")
    } else if vk == 0xAE {
        Some("AudioVolumeDown")
    } else if vk == 0xAF {
        Some("AudioVolumeUp")
    } else if vk == 0xAD {
        Some("AudioVolumeMute")
    } else if vk == 0xFA {
        Some("MediaPlay")
    } else if vk == 0xB3 {
        Some("MediaPlayPause")
    } else if vk == 0xB2 {
        Some("MediaStop")
    } else if vk == 0xB0 {
        Some("MediaTrackNext")
    } else if vk == 0xB1 {
        Some("MediaTrackPrevious")
    } else {
        None
    }
}

/// Reads a pressed Windows virtual key: `Ok(None)` for a modifier, the key's
/// name, or the message for a key that no shortcut can use.
pub fn windows_key(vk: u16, extended: bool) -> (r: Result<Option<String>, String>)
    ensures
        match vk_reading(vk, extended) {
            KeyReading::Modifier => r matches Ok(None),
            KeyReading::Key(name) => r matches Ok(Some(k)) && k@ == name,
            KeyReading::Unsupported => r matches Err(e) && e@ == unsupported_message(),
        },
{
    if vk == 0x10 || vk == 0x11 || vk == 0x12 || vk == 0xA0 || vk == 0xA1 || vk == 0xA2 || vk == 0xA3
        || vk == 0xA4 || vk == 0xA5 || vk == 0x5B || vk == 0x5C {
        return Ok(None);
    }
    if (0x41 <= vk && vk <= 0x5A) || (0x30 <= vk && vk <= 0x39) {
        let mut s = String::new();
        push_char(&mut s, (vk as u8) as char);
        assert(s@ =~= seq![(vk as u8) as char]);
        return Ok(Some(s));
    }
    if 0x70 <= vk && vk <= 0x87 {
        let mut s = String::from_str("F");
        push_decimal(&mut s, (vk - 0x70 + 1) as u8);
        return Ok(Some(s));
    }
    if 0x60 <= vk && vk <= 0x69 {
        let mut s = String::from_str("Numpad");
        push_decimal(&mut s, (vk - 0x60) as u8);
        return Ok(Some(s));
    }
    match named_vk_text(vk, extended) {
        Some(name) => Ok(Some(String::from_str(name))),
        None => Err(String::from_str("This key cannot be used as a global shortcut.")),
    }
}

/// A shortcut text: the held modifiers, in a fixed order, then the key, joined by `+`.
pub open spec fn combination(ctrl: bool, alt: bool, shift: bool, sup: bool, key: Seq<char>) -> Seq<char> {
    (if ctrl { "ctrl+"@ } else { Seq::empty() }) + (if alt { "alt+"@ } else { Seq::empty() })
        + (if shift { "shift+"@ } else { Seq::empty() }) + (if sup { "super+"@ } else { Seq::empty() }) + key
}

/// Writes a shortcut text from the held modifiers and the key.
pub fn combine(ctrl: bool, alt: bool, shift: bool, sup: bool, key: &str) -> (r: String)
    ensures
        r@ == combination(ctrl, alt, shift, sup, key@),
{
    let mut s = String::new();
    if ctrl {
        s.append("ctrl+");
    }
    if alt {
        s.append("alt+");
    }
    if shift {
        s.append("shift+");
    }
    if sup {
        s.append("super+");
    }
    s.append(key);
    assert(s@ =~= combination(ctrl, alt, shift, sup, key@));
    s
}

proof fn lemma_no_o(text: Seq<char>)
    requires
        forall|i: int| 0 <= i < text.len() ==> text[i] != 'o' && text[i] != 'O',
    ensures
        !or_pair(text),
    decreases text.len(),
{
    if text.len() >= 2 {
        let rest = text.drop_first();
        assert forall|i: int| 0 <= i < rest.len() implies rest[i] != 'o' && rest[i] != 'O' by {
            assert(rest[i] == text[i + 1]);
        }
        lemma_no_o(rest);
    }
}

/// Whether a text is empty or ends with `+`.
spec fn open_end(text: Seq<char>) -> bool {
    text.len() == 0 || text.last() == '+'
}

proof fn lemma_or_pair_concat(a: Seq<char>, b: Seq<char>)
    requires
        !or_pair(a),
        !or_pair(b),
        open_end(a),
    ensures
        !or_pair(a + b),
    decreases a.len(),
{
    if a.len() == 0 {
        assert(a + b =~= b);
    } else if a.len() == 1 {
        assert(a[0] == '+');
        assert((a + b).drop_first() =~= b);
        if b.len() == 0 {
            assert((a + b).len() == 1);
        }
    } else {
        let rest = a.drop_first();
        assert(rest.last() == a.last());
        assert((a + b).drop_first() =~= rest + b);
        assert((a + b)[0] == a[0] && (a + b)[1] == a[1]);
        lemma_or_pair_concat(rest, b);
    }
}

proof fn lemma_prefix_step(x: Seq<char>, on: bool, word: Seq<char>)
    requires
        !or_pair(x),
        open_end(x),
        !or_pair(word),
        word.len() > 0 && word.last() == '+',
    ensures
        !or_pair(x + (if on { word } else { Seq::empty() })),
        open_end(x + (if on { word } else { Seq::empty() })),
{
    if on {
        lemma_or_pair_concat(x, word);
        assert((x + word).last() == word.last());
    } else {
        assert(x + Seq::<char>::empty() =~= x);
    }
}

proof fn lemma_named_keys_have_no_or(vk: u16, extended: bool)
    ensures
        named_vk(vk, extended) is Some ==> !or_pair(named_vk(vk, extended)->0),
{
    reveal_strlit("Backspace");
    reveal_strlit("Tab");
    reveal_strlit("Space");
    reveal_strlit("NumpadEnter");
    reveal_strlit("Enter");
    reveal_strlit("Escape");
    reveal_strlit("CapsLock");
    reveal_strlit("PageUp");
    reveal_strlit("PageDown");
    reveal_strlit("Home");
    reveal_strlit("End");
    reveal_strlit("Left");
    reveal_strlit("Right");
    reveal_strlit("Up");
    reveal_strlit("Down");
    reveal_strlit("Insert");
    reveal_strlit("Delete");
    reveal_strlit("PrintScreen");
    reveal_strlit("NumLock");
    reveal_strlit("ScrollLock");
    reveal_strlit("Pause");
    reveal_strlit("NumpadAdd");
    reveal_strlit("NumpadSubtract");
    reveal_strlit("NumpadMultiply");
    reveal_strlit("NumpadDivide");
    reveal_strlit("NumpadDecimal");
    reveal_strlit("Equal");
    reveal_strlit("Minus");
    reveal_strlit("Comma");
    reveal_strlit("Period");
    reveal_strlit("Semicolon");
    reveal_strlit("Slash");
    reveal_strlit("Backquote");
    reveal_strlit("BracketLeft");
    reveal_strlit("Backslash");
    reveal_strlit("BracketRight");
    reveal_strlit("Quote");
    reveal_strlit("AudioVolumeDown");
    reveal_strlit("AudioVolumeUp");
    reveal_strlit("AudioVolumeMute");
    reveal_strlit("MediaPlay");
    reveal_strlit("MediaPlayPause");
    reveal_strlit("MediaStop");
    reveal_strlit("MediaTrackNext");
    reveal_strlit("MediaTrackPrevious");
    reveal_with_fuel(or_pair, 24);
}

proof fn lemma_key_names_have_no_or(vk: u16, extended: bool)
    ensures
        vk_reading(vk, extended) is Key ==> !or_pair(vk_reading(vk, extended)->Key_0),
{
    if vk_reading(vk, extended) is Key {
        let name = vk_reading(vk, extended)->Key_0;
        if modifier_vk(vk) {
        } else if (0x41 <= vk <= 0x5A) || (0x30 <= vk <= 0x39) {
            assert(name.len() == 1);
        } else if 0x70 <= vk <= 0x87 {
            reveal_strlit("F");
            lemma_no_o(name);
        } else if 0x60 <= vk <= 0x69 {
            reveal_strlit("Numpad");
            lemma_no_o(name);
        } else {
            lemma_named_keys_have_no_or(vk, extended);
        }
    }
}

/// The shortcut texts written from a key read on Windows hold no `or`, so
/// that every platform reads them alike.
proof fn lemma_combination_has_no_or(ctrl: bool, alt: bool, shift: bool, sup: bool, key: Seq<char>)
    requires
        !or_pair(key),
    ensures
        !or_pair(combination(ctrl, alt, shift, sup, key)),
{
    reveal_strlit("ctrl+");
    reveal_strlit("alt+");
    reveal_strlit("shift+");
    reveal_strlit("super+");
    reveal_with_fuel(or_pair, 8);
    let e = Seq::<char>::empty();
    assert(!or_pair(e) && open_end(e));
    lemma_prefix_step(e, ctrl, "ctrl+"@);
    let x1 = e + (if ctrl { "ctrl+"@ } else { Seq::empty() });
    assert(x1 =~= (if ctrl { "ctrl+"@ } else { Seq::<char>::empty() }));
    lemma_prefix_step(x1, alt, "alt+"@);
    let x2 = x1 + (if alt { "alt+"@ } else { Seq::empty() });
    lemma_prefix_step(x2, shift, "shift+"@);
    let x3 = x2 + (if shift { "shift+"@ } else { Seq::empty() });
    lemma_prefix_step(x3, sup, "super+"@);
    let x4 = x3 + (if sup { "super+"@ } else { Seq::empty() });
    lemma_or_pair_concat(x4, key);
    assert(x4 + key == combination(ctrl, alt, shift, sup, key));
}

/// The shortcut recorded from a key pressed on Windows with the given modifiers
/// held: none yet for a modifier alone; otherwise the combination as
/// global_hotkey writes it back, or why it cannot be used.
pub fn windows_shortcut(vk: u16, extended: bool, ctrl: bool, alt: bool, shift: bool, win: bool) -> (r: Result<Option<String>, String>)
    ensures
        vk_reading(vk, extended) is Modifier ==> r matches Ok(None),
        vk_reading(vk, extended) is Unsupported ==> (r matches Err(e) && e@ == unsupported_message()),
        vk_reading(vk, extended) is Key ==> !(r matches Ok(None)),
        vk_reading(vk, extended) is Key ==> match hotkey_reading(combination(ctrl, alt, shift, win, vk_reading(vk, extended)->Key_0)) {
            Ok((_, t)) => r matches Ok(Some(s)) && s@ == t,
            Err(e) => r matches Err(m) && m@ == e,
        },
{
    let key = match windows_key(vk, extended) {
        Ok(Some(key)) => key,
        Ok(None) => {
            return Ok(None);
        },
        Err(error) => {
            return Err(error);
        },
    };
    let text = combine(ctrl, alt, shift, win, key.as_str());
    proof {
        lemma_key_names_have_no_or(vk, extended);
        lemma_combination_has_no_or(ctrl, alt, shift, win, key@);
    }
    match parse_hotkey(text.as_str()) {
        Ok(parsed) => Ok(Some(parsed.text())),
        Err(error) => Err(error),
    }
}

/// What a key pressed while recording on macOS amounts to.
pub enum Captured {
    /// Nothing: the event carried no character.
    Nothing,
    /// Escape: recording stops.
    Cancel,
    /// A key with this name.
    Key(String),
}

/// A capture as plain values.
pub enum CapturedView {
    Nothing,
    Cancel,
    Key(Seq<char>),
}

impl View for Captured {
    type V = CapturedView;

    open spec fn view(&self) -> CapturedView {
        match self {
            Captured::Nothing => CapturedView::Nothing,
            Captured::Cancel => CapturedView::Cancel,
            Captured::Key(k) => CapturedView::Key(k@),
        }
    }
}

/// The name of a key that AppKit reports by a character in its private range
/// of function keys.
pub open spec fn function_key(n: u32) -> Option<Seq<char>> {
    if n == 0xF700 {
        Some("Up"@)
    } else if n == 0xF701 {
        Some("Down"@)
    } else if n == 0xF702 {
        Some("Left"@)
    } else if n == 0xF703 {
        Some("Right"@)
    } else if n == 0xF729 {
        Some("Home"@)
    } else if n == 0xF72B {
        Some("End"@)
    } else if n == 0xF72C {
        Some("PageUp"@)
    } else if n == 0xF72D {
        Some("PageDown"@)
    } else if n == 0xF728 {
        Some("Delete"@)
    } else if n == 0xF727 {
        Some("Insert"@)
    } else if 0xF704 <= n <= 0xF726 {
        Some("F"@ + decimal((n - 0xF704 + 1) as nat))
    } else {
        None
    }
}

/// The name of a key typed on the number pad, by its character.
pub open spec fn pad_key(c: char) -> Option<Seq<char>> {
    if '0' <= c <= '9' {
        Some("Numpad"@ + seq![c])
    } else if c == '+' {
        Some("NumpadAdd"@)
    } else if c == '-' {
        Some("NumpadSubtract"@)
    } else if c == '*' {
        Some("NumpadMultiply"@)
    } else if c == '/' {
        Some("NumpadDivide"@)
    } else if c == '.' {
        Some("NumpadDecimal"@)
    } else if c == '=' {
        Some("NumpadEqual"@)
    } else {
        None
    }
}

/// The name of the key that typed `text` (its characters without modifiers),
/// `numeric` telling whether it is on the number pad.
pub open spec fn mac_key_name(text: Seq<char>, numeric: bool) -> Seq<char> {
    let c = text[0];
    match function_key(c as u32) {
        Some(name) => name,
        None => if c == ' ' {
            "Space"@
        } else if c == '\r' || c == '\n' {
            "Enter"@
        } else if c == '\t' {
            "Tab"@
        } else if c as u32 == 0x7f || c as u32 == 0x08 {
            "Backspace"@
        } else if c as u32 == 0x03 {
            "NumpadEnter"@
        } else if numeric && pad_key(c) is Some {
            pad_key(c)->0
        } else {
            text
        },
    }
}

/// What a key pressed while recording on macOS amounts to.
pub open spec fn mac_capture(text: Seq<char>, numeric: bool) -> CapturedView {
    if text.len() == 0 {
        CapturedView::Nothing
    } else if text[0] as u32 == 0x1b {
        CapturedView::Cancel
    } else {
        CapturedView::Key(mac_key_name(text, numeric))
    }
}

/// The name of a key in AppKit's private range of function keys.
fn function_key_text(c: char) -> (r: Option<String>)
    ensures
        match (r, function_key(c as u32)) {
            (Some(a), Some(b)) => a@ == b,
            (None, None) => true,
            _ => false,
        },
{
    let n = c as u32;
    if n == 0xF700 {
        Some(String::from_str("Up"))
    } else if n == 0xF701 {
        Some(String::from_str("Down"))
    } else if n == 0xF702 {
        Some(String::from_str("Left"))
    } else if n == 0xF703 {
        Some(String::from_str("Right"))
    } else if n == 0xF729 {
        Some(String::from_str("Home"))
    } else if n == 0xF72B {
        Some(String::from_str("End"))
    } else if n == 0xF72C {
        Some(String::from_str("PageUp"))
    } else if n == 0xF72D {
        Some(String::from_str("PageDown"))
    } else if n == 0xF728 {
        Some(String::from_str("Delete"))
    } else if n == 0xF727 {
        Some(String::from_str("Insert"))
    } else if 0xF704 <= n && n <= 0xF726 {
        let mut s = String::from_str("F");
        push_decimal(&mut s, (n - 0xF704 + 1) as u8);
        Some(s)
    } else {
        None
    }
}

/// The name of a key typed on the number pad.
fn pad_key_text(c: char) -> (r: Option<String>)
    ensures
        match (r, pad_key(c)) {
            (Some(a), Some(b)) => a@ == b,
            (None, None) => true,
            _ => false,
        },
{
    if '0' <= c && c <= '9' {
        let mut s = String::from_str("Numpad");
        push_char(&mut s, c);
        Some(s)
    } else if c == '+' {
        Some(String::from_str("NumpadAdd"))
    } else if c == '-' {
        Some(String::from_str("NumpadSubtract"))
    } else if c == '*' {
        Some(String::from_str("NumpadMultiply"))
    } else if c == '/' {
        Some(String::from_str("NumpadDivide"))
    } else if c == '.' {
        Some(String::from_str("NumpadDecimal"))
    } else if c == '=' {
        Some(String::from_str("NumpadEqual"))
    } else {
        None
    }
}

/// Reads a key pressed while recording on macOS, from the characters it types
/// without modifiers and whether it is on the number pad.
pub fn mac_key(text: &str, numeric: bool) -> (r: Captured)
    ensures
        r@ == mac_capture(text@, numeric),
{
    if text.unicode_len() == 0 {
        return Captured::Nothing;
    }
    let c = text.get_char(0);
    if c as u32 == 0x1b {
        return Captured::Cancel;
    }
    match function_key_text(c) {
        Some(name) => {
            return Captured::Key(name);
        },
        None => {},
    }
    let name = if c == ' ' {
        String::from_str("Space")
    } else if c == '\r' || c == '\n' {
        String::from_str("Enter")
    } else if c == '\t' {
        String::from_str("Tab")
    } else if c as u32 == 0x7f || c as u32 == 0x08 {
        String::from_str("Backspace")
    } else if c as u32 == 0x03 {
        String::from_str("NumpadEnter")
    } else {
        let pad = if numeric { pad_key_text(c) } else { None };
        match pad {
            Some(name) => name,
            None => String::from_str(text),
        }
    };
    Captured::Key(name)
}

/// The text with every occurrence of `from`, taken left to right without
/// overlap, replaced by `to`, as std's `str::replace` documents it (an empty
/// `from` matches before each character and at the end).
pub open spec fn replaced(text: Seq<char>, from: Seq<char>, to: Seq<char>) -> Seq<char>
    decreases text.len(),
{
    if from.len() == 0 {
        if text.len() == 0 {
            to
        } else {
            to + seq![text[0]] + replaced(text.drop_first(), from, to)
        }
    } else if text.len() < from.len() {
        text
    } else if text.take(from.len() as int) == from {
        to + replaced(text.skip(from.len() as int), from, to)
    } else {
        seq![text[0]] + replaced(text.drop_first(), from, to)
    }
}

/// The text in upper case, as std's `str::to_uppercase` gives it (by the
/// Unicode case tables).
pub uninterp spec fn upper(text: Seq<char>) -> Seq<char>;

/// `str::replace`: every occurrence replaced, as `replaced` states.
#[verifier::external_body]
fn replace_text(text: &str, from: &str, to: &str) -> (r: String)
    ensures
        r@ == replaced(text@, from@, to@),
{
    text.replace(from, to)
}

/// `str::to_uppercase`, named `upper`.
#[verifier::external_body]
fn upper_text(text: &str) -> (r: String)
    ensures
        r@ == upper(text@),
{
    text.to_uppercase()
}

/// How a shortcut is written with the Mac's modifier symbols: the modifier
/// words become ⌃, ⌥, ⇧ and ⌘, the `Key` and `Digit` prefixes go, and the
/// rest is put in upper case.
pub open spec fn mac_title_text(value: Seq<char>) -> Seq<char> {
    let a = replaced(value, "ctrl+"@, "⌃"@);
    let b = replaced(a, "control+"@, "⌃"@);
    let c = replaced(b, "alt+"@, "⌥"@);
    let d = replaced(c, "shift+"@, "⇧"@);
    let e = replaced(d, "super+"@, "⌘"@);
    let f = replaced(e, "meta+"@, "⌘"@);
    let g = replaced(f, "Key"@, ""@);
    let h = replaced(g, "Digit"@, ""@);
    upper(h)
}

/// The title of the Mac's shortcut recorder for the stored shortcut: an
/// invitation to record where there is none, else the shortcut in symbols.
pub fn mac_title(value: &str) -> (r: String)
    ensures
        value@.len() == 0 ==> r@ == "Record shortcut…"@,
        value@.len() != 0 ==> r@ == mac_title_text(value@),
{
    if value.unicode_len() == 0 {
        return String::from_str("Record shortcut…");
    }
    let a = replace_text(value, "ctrl+", "⌃");
    let b = replace_text(a.as_str(), "control+", "⌃");
    let c = replace_text(b.as_str(), "alt+", "⌥");
    let d = replace_text(c.as_str(), "shift+", "⇧");
    let e = replace_text(d.as_str(), "super+", "⌘");
    let f = replace_text(e.as_str(), "meta+", "⌘");
    let g = replace_text(f.as_str(), "Key", "");
    let h = replace_text(g.as_str(), "Digit", "");
    upper_text(h.as_str())
}

/// The shortcut recorded on macOS from a key read by `mac_key` and the
/// modifiers held (Control, Option, Shift, Command): global_hotkey's canonical
/// text of the combination, or why it cannot be read. Stated of combinations
/// without `or`, which every platform reads alike.
pub fn mac_shortcut(key: &str, ctrl: bool, alt: bool, shift: bool, cmd: bool) -> (r: Result<String, String>)
    ensures
        !or_pair(combination(ctrl, alt, shift, cmd, key@)) ==> match hotkey_reading(combination(ctrl, alt, shift, cmd, key@)) {
            Ok((_, t)) => r matches Ok(s) && s@ == t,
            Err(e) => r matches Err(m) && m@ == e,
        },
{
    let text = combine(ctrl, alt, shift, cmd, key);
    match parse_hotkey(text.as_str()) {
        Ok(parsed) => Ok(parsed.text()),
        Err(error) => Err(error),
    }
}

/// Windows virtual-key codes, as Windows defines them (`VK_...`).
pub const VK_BACK: u16 = 0x08;
pub const VK_TAB: u16 = 0x09;
pub const VK_SPACE: u16 = 0x20;
pub const VK_RETURN: u16 = 0x0D;
pub const VK_ESCAPE: u16 = 0x1B;
pub const VK_CAPITAL: u16 = 0x14;
pub const VK_PRIOR: u16 = 0x21;
pub const VK_NEXT: u16 = 0x22;
pub const VK_HOME: u16 = 0x24;
pub const VK_END: u16 = 0x23;
pub const VK_LEFT: u16 = 0x25;
pub const VK_RIGHT: u16 = 0x27;
pub const VK_UP: u16 = 0x26;
pub const VK_DOWN: u16 = 0x28;
pub const VK_INSERT: u16 = 0x2D;
pub const VK_DELETE: u16 = 0x2E;
pub const VK_SNAPSHOT: u16 = 0x2C;
pub const VK_NUMLOCK: u16 = 0x90;
pub const VK_SCROLL: u16 = 0x91;
pub const VK_PAUSE: u16 = 0x13;
pub const VK_ADD: u16 = 0x6B;
pub const VK_SUBTRACT: u16 = 0x6D;
pub const VK_MULTIPLY: u16 = 0x6A;
pub const VK_DIVIDE: u16 = 0x6F;
pub const VK_DECIMAL: u16 = 0x6E;
pub const VK_OEM_PLUS: u16 = 0xBB;
pub const VK_OEM_MINUS: u16 = 0xBD;
pub const VK_OEM_COMMA: u16 = 0xBC;
pub const VK_OEM_PERIOD: u16 = 0xBE;
pub const VK_OEM_1: u16 = 0xBA;
pub const VK_OEM_2: u16 = 0xBF;
pub const VK_OEM_3: u16 = 0xC0;
pub const VK_OEM_4: u16 = 0xDB;
pub const VK_OEM_5: u16 = 0xDC;
pub const VK_OEM_6: u16 = 0xDD;
pub const VK_OEM_7: u16 = 0xDE;
pub const VK_VOLUME_DOWN: u16 = 0xAE;
pub const VK_VOLUME_UP: u16 = 0xAF;
pub const VK_VOLUME_MUTE: u16 = 0xAD;
pub const VK_PLAY: u16 = 0xFA;
pub const VK_MEDIA_PLAY_PAUSE: u16 = 0xB3;
pub const VK_MEDIA_STOP: u16 = 0xB2;
pub const VK_MEDIA_NEXT_TRACK: u16 = 0xB0;
pub const VK_MEDIA_PREV_TRACK: u16 = 0xB1;
pub const VK_A: u16 = 0x41;
pub const VK_Z: u16 = 0x5A;
pub const VK_0: u16 = 0x30;
pub const VK_9: u16 = 0x39;
pub const VK_F1: u16 = 0x70;
pub const VK_F24: u16 = 0x87;
pub const VK_NUMPAD0: u16 = 0x60;
pub const VK_NUMPAD9: u16 = 0x69;
pub const VK_SHIFT: u16 = 0x10;
pub const VK_CONTROL: u16 = 0x11;
pub const VK_MENU: u16 = 0x12;
pub const VK_LSHIFT: u16 = 0xA0;
pub const VK_RSHIFT: u16 = 0xA1;
pub const VK_LCONTROL: u16 = 0xA2;
pub const VK_RCONTROL: u16 = 0xA3;
pub const VK_LMENU: u16 = 0xA4;
pub const VK_RMENU: u16 = 0xA5;
pub const VK_LWIN: u16 = 0x5B;
pub const VK_RWIN: u16 = 0x5C;

/// Each Windows virtual key that has a name reads as the key it is (the
/// Left arrow as `Left`, the Right arrow as `Right`, the main Enter as `Enter`
/// and the number pad's as `NumpadEnter`, and so on), and the modifier keys
/// read as modifiers.
pub proof fn named_keys_read_as_themselves(extended: bool)
    ensures
        vk_reading(VK_BACK, extended) == KeyReading::Key("Backspace"@),
        vk_reading(VK_TAB, extended) == KeyReading::Key("Tab"@),
        vk_reading(VK_SPACE, extended) == KeyReading::Key("Space"@),
        vk_reading(VK_RETURN, true) == KeyReading::Key("NumpadEnter"@),
        vk_reading(VK_RETURN, false) == KeyReading::Key("Enter"@),
        vk_reading(VK_ESCAPE, extended) == KeyReading::Key("Escape"@),
        vk_reading(VK_CAPITAL, extended) == KeyReading::Key("CapsLock"@),
        vk_reading(VK_PRIOR, extended) == KeyReading::Key("PageUp"@),
        vk_reading(VK_NEXT, extended) == KeyReading::Key("PageDown"@),
        vk_reading(VK_HOME, extended) == KeyReading::Key("Home"@),
        vk_reading(VK_END, extended) == KeyReading::Key("End"@),
        vk_reading(VK_LEFT, extended) == KeyReading::Key("Left"@),
        vk_reading(VK_RIGHT, extended) == KeyReading::Key("Right"@),
        vk_reading(VK_UP, extended) == KeyReading::Key("Up"@),
        vk_reading(VK_DOWN, extended) == KeyReading::Key("Down"@),
        vk_reading(VK_INSERT, extended) == KeyReading::Key("Insert"@),
        vk_reading(VK_DELETE, extended) == KeyReading::Key("Delete"@),
        vk_reading(VK_SNAPSHOT, extended) == KeyReading::Key("PrintScreen"@),
        vk_reading(VK_NUMLOCK, extended) == KeyReading::Key("NumLock"@),
        vk_reading(VK_SCROLL, extended) == KeyReading::Key("ScrollLock"@),
        vk_reading(VK_PAUSE, extended) == KeyReading::Key("Pause"@),
        vk_reading(VK_ADD, extended) == KeyReading::Key("NumpadAdd"@),
        vk_reading(VK_SUBTRACT, extended) == KeyReading::Key("NumpadSubtract"@),
        vk_reading(VK_MULTIPLY, extended) == KeyReading::Key("NumpadMultiply"@),
        vk_reading(VK_DIVIDE, extended) == KeyReading::Key("NumpadDivide"@),
        vk_reading(VK_DECIMAL, extended) == KeyReading::Key("NumpadDecimal"@),
        vk_reading(VK_OEM_PLUS, extended) == KeyReading::Key("Equal"@),
        vk_reading(VK_OEM_MINUS, extended) == KeyReading::Key("Minus"@),
        vk_reading(VK_OEM_COMMA, extended) == KeyReading::Key("Comma"@),
        vk_reading(VK_OEM_PERIOD, extended) == KeyReading::Key("Period"@),
        vk_reading(VK_OEM_1, extended) == KeyReading::Key("Semicolon"@),
        vk_reading(VK_OEM_2, extended) == KeyReading::Key("Slash"@),
        vk_reading(VK_OEM_3, extended) == KeyReading::Key("Backquote"@),
        vk_reading(VK_OEM_4, extended) == KeyReading::Key("BracketLeft"@),
        vk_reading(VK_OEM_5, extended) == KeyReading::Key("Backslash"@),
        vk_reading(VK_OEM_6, extended) == KeyReading::Key("BracketRight"@),
        vk_reading(VK_OEM_7, extended) == KeyReading::Key("Quote"@),
        vk_reading(VK_VOLUME_DOWN, extended) == KeyReading::Key("AudioVolumeDown"@),
        vk_reading(VK_VOLUME_UP, extended) == KeyReading::Key("AudioVolumeUp"@),
        vk_reading(VK_VOLUME_MUTE, extended) == KeyReading::Key("AudioVolumeMute"@),
        vk_reading(VK_PLAY, extended) == KeyReading::Key("MediaPlay"@),
        vk_reading(VK_MEDIA_PLAY_PAUSE, extended) == KeyReading::Key("MediaPlayPause"@),
        vk_reading(VK_MEDIA_STOP, extended) == KeyReading::Key("MediaStop"@),
        vk_reading(VK_MEDIA_NEXT_TRACK, extended) == KeyReading::Key("MediaTrackNext"@),
        vk_reading(VK_MEDIA_PREV_TRACK, extended) == KeyReading::Key("MediaTrackPrevious"@),
        vk_reading(VK_SHIFT, extended) is Modifier,
        vk_reading(VK_CONTROL, extended) is Modifier,
        vk_reading(VK_MENU, extended) is Modifier,
        vk_reading(VK_LSHIFT, extended) is Modifier,
        vk_reading(VK_RSHIFT, extended) is Modifier,
        vk_reading(VK_LCONTROL, extended) is Modifier,
        vk_reading(VK_RCONTROL, extended) is Modifier,
        vk_reading(VK_LMENU, extended) is Modifier,
        vk_reading(VK_RMENU, extended) is Modifier,
        vk_reading(VK_LWIN, extended) is Modifier,
        vk_reading(VK_RWIN, extended) is Modifier,
{
}

/// Letters and digits read as the character they type, the function keys as
/// `F1` to `F24`, and the number pad's digits as `Numpad0` to `Numpad9`.
pub proof fn numbered_keys_read_in_order(vk: u16, extended: bool)
    ensures
        VK_A <= vk <= VK_Z ==> vk_reading(vk, extended) == KeyReading::Key(seq![(vk as u8) as char]),
        VK_0 <= vk <= VK_9 ==> vk_reading(vk, extended) == KeyReading::Key(seq![(vk as u8) as char]),
        VK_F1 <= vk <= VK_F24 ==> vk_reading(vk, extended) == KeyReading::Key("F"@ + decimal((vk - VK_F1 + 1) as nat)),
        VK_NUMPAD0 <= vk <= VK_NUMPAD9 ==> vk_reading(vk, extended) == KeyReading::Key("Numpad"@ + decimal((vk - VK_NUMPAD0) as nat)),
{
}

/// AppKit's characters for the function keys (`NS...FunctionKey`).
pub const NS_UP_ARROW_FUNCTION_KEY: u32 = 0xF700;
pub const NS_DOWN_ARROW_FUNCTION_KEY: u32 = 0xF701;
pub const NS_LEFT_ARROW_FUNCTION_KEY: u32 = 0xF702;
pub const NS_RIGHT_ARROW_FUNCTION_KEY: u32 = 0xF703;
pub const NS_INSERT_FUNCTION_KEY: u32 = 0xF727;
pub const NS_DELETE_FUNCTION_KEY: u32 = 0xF728;
pub const NS_HOME_FUNCTION_KEY: u32 = 0xF729;
pub const NS_END_FUNCTION_KEY: u32 = 0xF72B;
pub const NS_PAGE_UP_FUNCTION_KEY: u32 = 0xF72C;
pub const NS_PAGE_DOWN_FUNCTION_KEY: u32 = 0xF72D;
pub const NS_F1_FUNCTION_KEY: u32 = 0xF704;
pub const NS_F35_FUNCTION_KEY: u32 = 0xF726;

/// Each AppKit function-key character reads as its key while recording on
/// macOS (the Left arrow as `Left`, the Right arrow as `Right`, and so on), on
/// the number pad or not, and `F1` to `F35` in order.
pub proof fn function_keys_read_as_themselves(c: char, numeric: bool)
    ensures
        c as u32 == NS_UP_ARROW_FUNCTION_KEY ==> mac_capture(seq![c], numeric) == CapturedView::Key("Up"@),
        c as u32 == NS_DOWN_ARROW_FUNCTION_KEY ==> mac_capture(seq![c], numeric) == CapturedView::Key("Down"@),
        c as u32 == NS_LEFT_ARROW_FUNCTION_KEY ==> mac_capture(seq![c], numeric) == CapturedView::Key("Left"@),
        c as u32 == NS_RIGHT_ARROW_FUNCTION_KEY ==> mac_capture(seq![c], numeric) == CapturedView::Key("Right"@),
        c as u32 == NS_INSERT_FUNCTION_KEY ==> mac_capture(seq![c], numeric) == CapturedView::Key("Insert"@),
        c as u32 == NS_DELETE_FUNCTION_KEY ==> mac_capture(seq![c], numeric) == CapturedView::Key("Delete"@),
        c as u32 == NS_HOME_FUNCTION_KEY ==> mac_capture(seq![c], numeric) == CapturedView::Key("Home"@),
        c as u32 == NS_END_FUNCTION_KEY ==> mac_capture(seq![c], numeric) == CapturedView::Key("End"@),
        c as u32 == NS_PAGE_UP_FUNCTION_KEY ==> mac_capture(seq![c], numeric) == CapturedView::Key("PageUp"@),
        c as u32 == NS_PAGE_DOWN_FUNCTION_KEY ==> mac_capture(seq![c], numeric) == CapturedView::Key("PageDown"@),
        NS_F1_FUNCTION_KEY <= c as u32 <= NS_F35_FUNCTION_KEY ==> mac_capture(seq![c], numeric)
            == CapturedView::Key("F"@ + decimal((c as u32 - NS_F1_FUNCTION_KEY + 1) as nat)),
{
}

/// The other keys read while recording on macOS: Escape stops recording,
/// space, Return, Tab, Delete and the number pad's Enter read as their keys,
/// and on the number pad the digits and operators read as number-pad keys.
pub proof fn typed_keys_read_as_themselves(c: char, numeric: bool)
    ensures
        mac_capture(Seq::empty(), numeric) is Nothing,
        c as u32 == 0x1B ==> mac_capture(seq![c], numeric) is Cancel,
        c == ' ' ==> mac_capture(seq![c], numeric) == CapturedView::Key("Space"@),
        c == '\r' || c == '\n' ==> mac_capture(seq![c], numeric) == CapturedView::Key("Enter"@),
        c == '\t' ==> mac_capture(seq![c], numeric) == CapturedView::Key("Tab"@),
        c as u32 == 0x7F || c as u32 == 0x08 ==> mac_capture(seq![c], numeric) == CapturedView::Key("Backspace"@),
        c as u32 == 0x03 ==> mac_capture(seq![c], numeric) == CapturedView::Key("NumpadEnter"@),
        '0' <= c <= '9' ==> mac_capture(seq![c], true) == CapturedView::Key("Numpad"@ + seq![c]),
        '0' <= c <= '9' ==> mac_capture(seq![c], false) == CapturedView::Key(seq![c]),
        c == '+' ==> mac_capture(seq![c], true) == CapturedView::Key("NumpadAdd"@),
        c == '-' ==> mac_capture(seq![c], true) == CapturedView::Key("NumpadSubtract"@),
        c == '*' ==> mac_capture(seq![c], true) == CapturedView::Key("NumpadMultiply"@),
        c == '/' ==> mac_capture(seq![c], true) == CapturedView::Key("NumpadDivide"@),
        c == '.' ==> mac_capture(seq![c], true) == CapturedView::Key("NumpadDecimal"@),
        c == '=' ==> mac_capture(seq![c], true) == CapturedView::Key("NumpadEqual"@),
{
}

} // verus!
