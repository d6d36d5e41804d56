use vstd::prelude::*;

use crate::text::same_text;

verus! {

/// What the program was started to do.
pub enum Invocation {
    /// Open the settings window.
    Window,
    /// Run the background process; `ready` when a launcher waits for it.
    Daemon { ready: bool },
    /// Ask the background process to run the named configuration and wait for it.
    Run { name: String },
}

/// The message for a configuration name that is not valid Unicode (written
/// in English, as the command line's messages are).
pub open spec fn unicode_message() -> Seq<char> {
    "Configuration name must be Unicode."@
}

/// The message that tells how to start the program.
pub open spec fn usage_message() -> Seq<char> {
    "Usage: pola [daemon | run NAME]"@
}

/// An argument is the given word (an argument that is not Unicode is no word).
pub open spec fn is_word(arg: Option<Seq<char>>, word: Seq<char>) -> bool {
    arg == Some(word)
}

/// The arguments as plain values.
pub open spec fn args_view(args: Seq<Option<String>>) -> Seq<Option<Seq<char>>> {
    args.map_values(|a: Option<String>| match a {
        Some(s) => Some(s@),
        None => None,
    })
}

/// What the arguments (after the program's name) ask for.
pub open spec fn invocation_of(args: Seq<Option<Seq<char>>>) -> Result<InvocationView, Seq<char>> {
    if args.len() == 0 {
        Ok(InvocationView::Window)
    } else if args.len() == 1 && is_word(args[0], "daemon"@) {
        Ok(InvocationView::Daemon { ready: false })
    } else if args.len() == 2 && is_word(args[0], "daemon"@) && is_word(args[1], "--ready"@) {
        Ok(InvocationView::Daemon { ready: true })
    } else if args.len() == 2 && is_word(args[0], "run"@) {
        match args[1] {
            Some(name) => Ok(InvocationView::Run { name }),
            None => Err(unicode_message()),
        }
    } else {
        Err(usage_message())
    }
}

/// An invocation as plain values.
pub enum InvocationView {
    Window,
    Daemon { ready: bool },
    Run { name: Seq<char> },
}

impl View for Invocation {
    type V = InvocationView;

    open spec fn view(&self) -> InvocationView {
        match self {
            Invocation::Window => InvocationView::Window,
            Invocation::Daemon { ready } => InvocationView::Daemon { ready: *ready },
            Invocation::Run { name } => InvocationView::Run { name: name@ },
        }
    }
}

/// Whether an argument is the given word.
fn word(arg: &Option<String>, w: &str) -> (r: bool)
    ensures
        r == is_word(
            match arg {
                Some(s) => Some(s@),
                None => None,
            },
            w@,
        ),
{
    match arg {
        Some(s) => same_text(s.as_str(), w),
        None => false,
    }
}

/// Reads the arguments given after the program's name; each is `None` where
/// it is not valid Unicode.
pub fn invocation(args: &Vec<Option<String>>) -> (r: Result<Invocation, String>)
    ensures
        match (r, invocation_of(args_view(args@))) {
            (Ok(i), Ok(v)) => i@ == v,
            (Err(e), Err(m)) => e@ == m,
            _ => false,
        },
{
    let ghost v = args_view(args@);
    proof {
        reveal_strlit("daemon");
        reveal_strlit("--ready");
        reveal_strlit("run");
    }
    if args.len() == 0 {
        return Ok(Invocation::Window);
    }
    assert(v[0] == match args@[0] { Some(s) => Some(s@), None => None::<Seq<char>> });
    if args.len() == 1 && word(&args[0], "daemon") {
        return Ok(Invocation::Daemon { ready: false });
    }
    if args.len() == 2 {
        assert(v[1] == match args@[1] { Some(s) => Some(s@), None => None::<Seq<char>> });
        if word(&args[0], "daemon") && word(&args[1], "--ready") {
            return Ok(Invocation::Daemon { ready: true });
        }
        if word(&args[0], "run") {
            assert("run"@.len() == 3 && "daemon"@.len() == 6);
            assert(!is_word(v[0], "daemon"@));
            return match &args[1] {
                Some(name) => Ok(Invocation::Run { name: name.clone() }),
                None => Err(String::from_str("Configuration name must be Unicode.")),
            };
        }
    }
    Err(String::from_str("Usage: pola [daemon | run NAME]"))
}

/// Whether the first argument asks for the background process, and the second
/// says a launcher waits for it: then a failure is also written out for it.
pub fn daemon_flags(args: &Vec<Option<String>>) -> (r: (bool, bool))
    ensures
        r.0 == (args@.len() > 0 && is_word(args_view(args@)[0], "daemon"@)),
        r.1 == (args@.len() > 1 && is_word(args_view(args@)[1], "--ready"@)),
{
    let daemon = args.len() > 0 && word(&args[0], "daemon");
    let ready = args.len() > 1 && word(&args[1], "--ready");
    (daemon, ready)
}

} // verus!
