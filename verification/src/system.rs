use vstd::prelude::*;

use crate::locale::Locale;
use crate::mode::Mode;
use crate::text::{join, joined, same_text};

verus! {

/// The appearance a `SystemUsesLightTheme` registry value stands for.
pub open spec fn mode_of_value(value: u32) -> Mode {
    if value == 0 {
        Mode::Dark
    } else {
        Mode::Light
    }
}

/// Reads the appearance from a `SystemUsesLightTheme` registry value.
pub fn registry_mode(value: u32) -> (r: Mode)
    ensures
        r == mode_of_value(value),
{
    if value == 0 {
        Mode::Dark
    } else {
        Mode::Light
    }
}

/// The registry value that selects an appearance: 1 for light, 0 for dark.
pub fn registry_value(mode: Mode) -> (r: u32)
    ensures
        r == (if mode == Mode::Light { 1u32 } else { 0u32 }),
{
    match mode {
        Mode::Light => 1,
        Mode::Dark => 0,
    }
}

/// Writing an appearance to the registry and reading it back gives the same appearance.
pub proof fn registry_round_trip(mode: Mode)
    ensures
        mode_of_value(if mode == Mode::Light { 1u32 } else { 0u32 }) == mode,
{
}

/// The AppleScript that asks System Events to switch the appearance.
pub open spec fn script_text(mode: Mode) -> Seq<char> {
    match mode {
        Mode::Light => "tell application \"System Events\" to tell appearance preferences to set dark mode to false"@,
        Mode::Dark => "tell application \"System Events\" to tell appearance preferences to set dark mode to true"@,
    }
}

/// The AppleScript that switches the system to `mode`.
pub fn appearance_script(mode: Mode) -> (r: &'static str)
    ensures
        r@ == script_text(mode),
{
    match mode {
        Mode::Light => "tell application \"System Events\" to tell appearance preferences to set dark mode to false",
        Mode::Dark => "tell application \"System Events\" to tell appearance preferences to set dark mode to true",
    }
}

/// The AppleScript for each appearance sets System Events' dark mode to
/// whether that appearance is dark: the script for light ends in `false`, the
/// one for dark in `true`, and the rest is the same.
pub proof fn scripts_select_their_mode(mode: Mode)
    ensures
        script_text(mode) == "tell application \"System Events\" to tell appearance preferences to set dark mode to "@
            + if mode == Mode::Dark { "true"@ } else { "false"@ },
        script_text(Mode::Light) != script_text(Mode::Dark),
{
    reveal_strlit("tell application \"System Events\" to tell appearance preferences to set dark mode to ");
    reveal_strlit("tell application \"System Events\" to tell appearance preferences to set dark mode to false");
    reveal_strlit("tell application \"System Events\" to tell appearance preferences to set dark mode to true");
    reveal_strlit("true");
    reveal_strlit("false");
    let prefix = "tell application \"System Events\" to tell appearance preferences to set dark mode to "@;
    assert(script_text(Mode::Light) =~= prefix + "false"@);
    assert(script_text(Mode::Dark) =~= prefix + "true"@);
    assert(script_text(Mode::Light).len() != script_text(Mode::Dark).len());
}

/// The command line registered to start the background process at login.
pub fn launch_command(exe: &str) -> (r: String)
    ensures
        r@ == "\""@ + exe@ + "\" daemon"@,
{
    String::from_str("\"").concat(exe).concat("\" daemon")
}

/// A failure told with what it concerns: the name, a colon and the error.
pub fn labelled(label: &str, error: &str) -> (r: String)
    ensures
        r@ == label@ + ": "@ + error@,
{
    String::from_str(label).concat(": ").concat(error)
}

/// The outcome of an operation done on each screen, or of a run of
/// configurations: success when nothing failed, else the failures, one per
/// line.
pub fn collect_errors(errors: &Vec<String>) -> (r: Result<(), String>)
    ensures
        errors@.len() == 0 ==> r is Ok,
        errors@.len() > 0 ==> (r matches Err(e) && e@ == joined(errors@.map_values(|s: String| s@), "\n"@)),
{
    if errors.len() == 0 {
        Ok(())
    } else {
        Err(join(errors, "\n"))
    }
}

/// Day names listed Sunday first, as AppKit lists them, put Monday first.
pub fn monday_first(names: &Vec<String>) -> (r: Vec<String>)
    requires
        names@.len() >= 7,
    ensures
        r@.len() == 7,
        forall|i: int| 0 <= i < 6 ==> #[trigger] r@[i] == names@[i + 1],
        r@[6] == names@[0],
{
    let mut r: Vec<String> = Vec::new();
    let mut i: usize = 1;
    while i < 7
        invariant
            1 <= i <= 7,
            names@.len() >= 7,
            r@.len() == i - 1,
            forall|k: int| 0 <= k < i - 1 ==> #[trigger] r@[k] == names@[k + 1],
        decreases 7 - i,
    {
        r.push(names[i].clone());
        i = i + 1;
    }
    r.push(names[0].clone());
    r
}

/// The clock the user's locale uses: the `LOCALE_ITIME` value `1` means a
/// 24-hour clock.
pub fn clock_name(value: &str) -> (r: &'static str)
    ensures
        value@ == "1"@ ==> r@ == "24HourClock"@,
        value@ != "1"@ ==> r@ == "12HourClock"@,
{
    if same_text(value, "1") {
        "24HourClock"
    } else {
        "12HourClock"
    }
}

/// The pieces of a buffer between its zero units, leaving out empty ones.
pub open spec fn pieces(buffer: Seq<u16>, start: int, end: int) -> Seq<Seq<u16>>
    decreases end - start,
{
    if end <= start {
        Seq::empty()
    } else {
        let first = first_zero(buffer, start, end);
        proof {
            first_zero_bounds(buffer, start, end);
        }
        let piece = if first == start {
            Seq::empty()
        } else {
            seq![buffer.subrange(start, first)]
        };
        if first >= end {
            piece
        } else {
            piece + pieces(buffer, first + 1, end)
        }
    }
}

/// The first index from `start` on, before `end`, that holds zero; `end` if none.
pub open spec fn first_zero(buffer: Seq<u16>, start: int, end: int) -> int
    decreases end - start,
{
    if end <= start {
        end
    } else if buffer[start] == 0 {
        start
    } else {
        first_zero(buffer, start + 1, end)
    }
}

/// The first zero from `start` on lies between `start` and `end`.
pub proof fn first_zero_bounds(buffer: Seq<u16>, start: int, end: int)
    requires
        start <= end,
    ensures
        start <= first_zero(buffer, start, end) <= end,
        forall|k: int| start <= k < first_zero(buffer, start, end) ==> buffer[k] != 0,
        first_zero(buffer, start, end) < end ==> buffer[first_zero(buffer, start, end)] == 0,
    decreases end - start,
{
    if start < end && buffer[start] != 0 {
        first_zero_bounds(buffer, start + 1, end);
    }
}

/// Splits a buffer of zero-terminated UTF-16 texts, as Windows hands out the
/// preferred languages, into its texts, leaving out empty ones.
pub fn split_wide(buffer: &Vec<u16>) -> (r: Vec<Vec<u16>>)
    ensures
        r@.map_values(|p: Vec<u16>| p@) == pieces(buffer@, 0, buffer@.len() as int),
{
    let mut out: Vec<Vec<u16>> = Vec::new();
    let mut current: Vec<u16> = Vec::new();
    let mut i: usize = 0;
    let mut start: usize = 0;
    let ghost all = pieces(buffer@, 0, buffer@.len() as int);
    assert(out@.map_values(|p: Vec<u16>| p@) + all =~= all);
    while i < buffer.len()
        invariant
            start <= i <= buffer@.len(),
            current@ == buffer@.subrange(start as int, i as int),
            forall|k: int| start <= k < i ==> buffer@[k] != 0,
            all == pieces(buffer@, 0, buffer@.len() as int),
            out@.map_values(|p: Vec<u16>| p@) + pieces(buffer@, start as int, buffer@.len() as int) == all,
        decreases buffer@.len() - i,
    {
        proof {
            first_zero_bounds(buffer@, start as int, buffer@.len() as int);
        }
        if buffer[i] == 0 {
            proof {
                assert(first_zero(buffer@, start as int, buffer@.len() as int) == i) by {
                    lemma_first_zero_at(buffer@, start as int, i as int, buffer@.len() as int);
                }
            }
            let ghost before = out@.map_values(|p: Vec<u16>| p@);
            if current.len() > 0 {
                let piece = current;
                out.push(piece);
                current = Vec::new();
                assert(out@.map_values(|p: Vec<u16>| p@) =~= before.push(buffer@.subrange(start as int, i as int)));
                assert(pieces(buffer@, start as int, buffer@.len() as int) == seq![buffer@.subrange(start as int, i as int)] + pieces(buffer@, i + 1, buffer@.len() as int));
                assert(before.push(buffer@.subrange(start as int, i as int)) + pieces(buffer@, i + 1, buffer@.len() as int)
                    =~= before + (seq![buffer@.subrange(start as int, i as int)] + pieces(buffer@, i + 1, buffer@.len() as int)));
            } else {
                assert(i == start);
                assert(out@.map_values(|p: Vec<u16>| p@) =~= before);
            }
            i = i + 1;
            start = i;
            assert(current@ =~= buffer@.subrange(start as int, i as int));
        } else {
            current.push(buffer[i]);
            i = i + 1;
            assert(current@ =~= buffer@.subrange(start as int, i as int));
        }
    }
    proof {
        first_zero_bounds(buffer@, start as int, buffer@.len() as int);
        lemma_first_zero_none(buffer@, start as int, buffer@.len() as int);
    }
    let ghost before = out@.map_values(|p: Vec<u16>| p@);
    if current.len() > 0 {
        out.push(current);
        assert(out@.map_values(|p: Vec<u16>| p@) =~= before.push(buffer@.subrange(start as int, buffer@.len() as int)));
        assert(pieces(buffer@, buffer@.len() + 1int, buffer@.len() as int) =~= Seq::<Seq<u16>>::empty());
        assert(pieces(buffer@, start as int, buffer@.len() as int) =~= seq![buffer@.subrange(start as int, buffer@.len() as int)]);
        assert(before + pieces(buffer@, start as int, buffer@.len() as int) =~= before.push(buffer@.subrange(start as int, buffer@.len() as int)));
    } else {
        assert(pieces(buffer@, start as int, buffer@.len() as int) =~= Seq::<Seq<u16>>::empty());
        assert(before + pieces(buffer@, start as int, buffer@.len() as int) =~= before);
    }
    out
}

proof fn lemma_first_zero_at(buffer: Seq<u16>, start: int, i: int, end: int)
    requires
        start <= i < end,
        buffer[i] == 0,
        forall|k: int| start <= k < i ==> buffer[k] != 0,
    ensures
        first_zero(buffer, start, end) == i,
    decreases i - start,
{
    if start < i {
        lemma_first_zero_at(buffer, start + 1, i, end);
    }
}

proof fn lemma_first_zero_none(buffer: Seq<u16>, start: int, end: int)
    requires
        start <= end,
        forall|k: int| start <= k < end ==> buffer[k] != 0,
    ensures
        first_zero(buffer, start, end) == end,
    decreases end - start,
{
    if start < end {
        lemma_first_zero_none(buffer, start + 1, end);
    }
}

/// The message for settings that could not be saved after the start-at-login
/// setting had changed, where putting that setting back failed too.
pub open spec fn launch_message(error: Seq<char>, restore: Seq<char>, locale: Locale) -> Seq<char> {
    match locale {
        Locale::English => error + "\nLaunch at login: "@ + restore,
        Locale::Chinese => error + "\n登录启动："@ + restore,
    }
}

/// Tells both failures of a save whose start-at-login setting could not be put back.
pub fn launch_failure(error: &str, restore: &str, locale: Locale) -> (r: String)
    ensures
        r@ == launch_message(error@, restore@, locale),
{
    match locale {
        Locale::English => String::from_str(error).concat("\nLaunch at login: ").concat(restore),
        Locale::Chinese => String::from_str(error).concat("\n登录启动：").concat(restore),
    }
}

/// Adds to the shown error that the shortcut could not be registered again,
/// on a line of its own after what is shown already.
pub fn add_restore_error(shown: &mut String, error: &str)
    ensures
        old(shown)@.len() == 0 ==> final(shown)@ == "Could not restore the shortcut: "@ + error@,
        old(shown)@.len() > 0 ==> final(shown)@ == old(shown)@ + "\n"@ + "Could not restore the shortcut: "@ + error@,
{
    if shown.unicode_len() > 0 {
        shown.append("\n");
    }
    shown.append("Could not restore the shortcut: ");
    shown.append(error);
}

} // verus!
