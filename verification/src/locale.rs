use vstd::prelude::*;

verus! {

/// The languages the interface is offered in.
#[derive(Clone, Copy, Debug, PartialEq, Eq, Structural)]
pub enum Locale {
    English,
    Chinese,
}

/// The number by which a language is remembered in a selection cell:
/// 1 for English, 2 for Chinese; 0 means that none was chosen.
pub open spec fn code_of(locale: Locale) -> u8 {
    match locale {
        Locale::English => 1,
        Locale::Chinese => 2,
    }
}

/// The language that a selection cell holding `selected` stands for,
/// where `system` is the language the system prefers.
pub open spec fn selected_locale(selected: u8, system: Locale) -> Locale {
    if selected == 1 {
        Locale::English
    } else if selected == 2 {
        Locale::Chinese
    } else {
        system
    }
}

/// The language tag of a locale.
pub open spec fn tag_text(locale: Locale) -> Seq<char> {
    match locale {
        Locale::English => "en-US"@,
        Locale::Chinese => "zh-CN"@,
    }
}

impl Locale {
    /// The BCP 47 tag handed to the platform for this language.
    pub fn tag(self) -> (r: &'static str)
        ensures
            r@ == tag_text(self),
    {
        match self {
            Locale::English => "en-US",
            Locale::Chinese => "zh-CN",
        }
    }

    /// The number by which this language is kept in a selection cell.
    pub fn code(self) -> (r: u8)
        ensures
            r == code_of(self),
    {
        match self {
            Locale::English => 1,
            Locale::Chinese => 2,
        }
    }
}

/// Records the chosen language (or none, to follow the system) in a selection cell.
pub fn set(selected: &mut u8, locale: Option<Locale>)
    ensures
        *final(selected) == match locale {
            Some(l) => code_of(l),
            None => 0u8,
        },
{
    *selected = match locale {
        Some(l) => l.code(),
        None => 0,
    };
}

/// The language in effect for a selection cell: the chosen one, else the system's.
pub fn current(selected: u8, system: Locale) -> (r: Locale)
    ensures
        r == selected_locale(selected, system),
{
    match selected {
        1 => Locale::English,
        2 => Locale::Chinese,
        _ => system,
    }
}

/// What `current` reads back is what `set` wrote: the chosen language, or,
/// when none was chosen, the system's.
pub proof fn current_reads_what_set_wrote(locale: Option<Locale>, system: Locale)
    ensures
        selected_locale(
            match locale {
                Some(l) => code_of(l),
                None => 0u8,
            },
            system,
        ) == match locale {
            Some(l) => l,
            None => system,
        },
{
}

/// A separator between the subtags of a language tag.
pub open spec fn is_separator(c: char) -> bool {
    c == '-' || c == '_'
}

/// The tag `s` has `primary` (which holds no separator) as its first subtag.
pub open spec fn has_primary(s: Seq<char>, primary: Seq<char>) -> bool {
    &&& s.len() >= primary.len()
    &&& s.subrange(0, primary.len() as int) == primary
    &&& (s.len() == primary.len() || is_separator(s[primary.len() as int]))
}

/// The interface language that a preferred language tag names, if any.
pub open spec fn tag_locale(s: Seq<char>) -> Option<Locale> {
    if has_primary(s, seq!['z', 'h']) {
        Some(Locale::Chinese)
    } else if has_primary(s, seq!['e', 'n']) {
        Some(Locale::English)
    } else {
        None
    }
}

/// The system's interface language: that of the first preferred language tag
/// that names one, else English.
pub open spec fn system_locale_of(languages: Seq<Seq<char>>) -> Locale
    decreases languages.len(),
{
    if languages.len() == 0 {
        Locale::English
    } else {
        match tag_locale(languages[0]) {
            Some(l) => l,
            None => system_locale_of(languages.drop_first()),
        }
    }
}

/// The first subtag of a language tag: the text before its first `-` or `_`
/// (all of it where there is none).
pub open spec fn first_subtag(tag: Seq<char>) -> Seq<char>
    decreases tag.len(),
{
    if tag.len() == 0 || is_separator(tag[0]) {
        Seq::empty()
    } else {
        seq![tag[0]] + first_subtag(tag.drop_first())
    }
}

proof fn lemma_first_subtag(tag: Seq<char>, primary: Seq<char>)
    requires
        forall|i: int| 0 <= i < primary.len() ==> !is_separator(#[trigger] primary[i]),
    ensures
        first_subtag(tag) == primary <==> has_primary(tag, primary),
    decreases primary.len(),
{
    if primary.len() == 0 {
        assert(tag.subrange(0, 0) =~= primary);
        if tag.len() > 0 && !is_separator(tag[0]) {
            assert(first_subtag(tag).len() > 0);
        } else {
            assert(first_subtag(tag) =~= primary);
        }
        assert(first_subtag(tag) == primary <==> has_primary(tag, primary));
    } else {
        let rest = primary.drop_first();
        assert forall|i: int| 0 <= i < rest.len() implies !is_separator(#[trigger] rest[i]) by {
            assert(rest[i] == primary[i + 1]);
        }
        if tag.len() == 0 {
            assert(first_subtag(tag) =~= Seq::<char>::empty());
            assert(first_subtag(tag).len() != primary.len());
            assert(first_subtag(tag) == primary <==> has_primary(tag, primary));
        } else {
            lemma_first_subtag(tag.drop_first(), rest);
            if is_separator(tag[0]) {
                assert(!is_separator(primary[0]));
                if has_primary(tag, primary) {
                    assert(tag.subrange(0, primary.len() as int)[0] == tag[0]);
                }
                assert(first_subtag(tag) =~= Seq::<char>::empty());
                assert(first_subtag(tag).len() != primary.len());
                assert(first_subtag(tag) == primary <==> has_primary(tag, primary));
            } else {
                let f = first_subtag(tag);
                let d = tag.drop_first();
                assert(f == seq![tag[0]] + first_subtag(d));
                assert(f.len() > 0 && f[0] == tag[0]);
                assert(f.drop_first() =~= first_subtag(d));
                assert(seq![primary[0]] + rest =~= primary);
                if f == primary {
                    assert(first_subtag(d) == rest);
                    assert(has_primary(d, rest));
                    assert(tag.subrange(0, primary.len() as int) =~= seq![tag[0]] + d.subrange(0, rest.len() as int));
                    if tag.len() > primary.len() {
                        assert(tag[primary.len() as int] == d[rest.len() as int]);
                    }
                    assert(has_primary(tag, primary));
                }
                if has_primary(tag, primary) {
                    assert(tag.subrange(0, primary.len() as int)[0] == primary[0]);
                    assert(d.subrange(0, rest.len() as int) =~= tag.subrange(0, primary.len() as int).drop_first());
                    assert(tag.subrange(0, primary.len() as int).drop_first() =~= rest);
                    if d.len() > rest.len() {
                        assert(tag[primary.len() as int] == d[rest.len() as int]);
                    }
                    assert(has_primary(d, rest));
                    assert(first_subtag(d) == rest);
                    assert(f =~= primary);
                }
            }
        }
    }
}

/// A language tag names Chinese exactly when its first subtag is `zh`, and
/// English exactly when it is `en`; any other first subtag names no
/// interface language.
pub proof fn tags_name_languages_by_first_subtag(tag: Seq<char>)
    ensures
        tag_locale(tag) == Some(Locale::Chinese) <==> first_subtag(tag) == seq!['z', 'h'],
        tag_locale(tag) == Some(Locale::English) <==> first_subtag(tag) == seq!['e', 'n'],
        tag_locale(tag) is None <==> first_subtag(tag) != seq!['z', 'h'] && first_subtag(tag) != seq!['e', 'n'],
{
    lemma_first_subtag(tag, seq!['z', 'h']);
    lemma_first_subtag(tag, seq!['e', 'n']);
    assert(seq!['z', 'h'] != seq!['e', 'n']) by {
        assert(seq!['z', 'h'][0] != seq!['e', 'n'][0]);
    }
}

/// The system's language is that of the first preferred tag whose first
/// subtag is `zh` or `en`, and English where there is none.
pub proof fn system_language_is_the_first_named(languages: Seq<Seq<char>>, i: int)
    requires
        0 <= i < languages.len(),
        first_subtag(languages[i]) == seq!['z', 'h'] || first_subtag(languages[i]) == seq!['e', 'n'],
        forall|k: int| 0 <= k < i ==> first_subtag(#[trigger] languages[k]) != seq!['z', 'h']
            && first_subtag(languages[k]) != seq!['e', 'n'],
    ensures
        system_locale_of(languages) == if first_subtag(languages[i]) == seq!['z', 'h'] {
            Locale::Chinese
        } else {
            Locale::English
        },
    decreases i,
{
    tags_name_languages_by_first_subtag(languages[0]);
    if i > 0 {
        let rest = languages.drop_first();
        assert forall|k: int| 0 <= k < i - 1 implies first_subtag(#[trigger] rest[k]) != seq!['z', 'h']
            && first_subtag(rest[k]) != seq!['e', 'n'] by {
            assert(rest[k] == languages[k + 1]);
        }
        assert(rest[i - 1] == languages[i]);
        system_language_is_the_first_named(rest, i - 1);
    } else {
        assert(seq!['z', 'h'] != seq!['e', 'n']) by {
            assert(seq!['z', 'h'][0] != seq!['e', 'n'][0]);
        }
    }
}

/// Reads the interface language named by one preferred language tag.
pub fn language_locale(s: &str) -> (r: Option<Locale>)
    ensures
        r == tag_locale(s@),
{
    let len = s.unicode_len();
    if len < 2 {
        return None;
    }
    let a = s.get_char(0);
    let b = s.get_char(1);
    if len > 2 {
        let c = s.get_char(2);
        if !(c == '-' || c == '_') {
            proof {
                assert(!has_primary(s@, seq!['z', 'h']));
                assert(!has_primary(s@, seq!['e', 'n']));
            }
            return None;
        }
    }
    if a == 'z' && b == 'h' {
        assert(s@.subrange(0, 2) =~= seq!['z', 'h']);
        Some(Locale::Chinese)
    } else if a == 'e' && b == 'n' {
        assert(s@.subrange(0, 2) =~= seq!['e', 'n']);
        Some(Locale::English)
    } else {
        proof {
            if has_primary(s@, seq!['z', 'h']) {
                assert(s@.subrange(0, 2)[0] == 'z');
            }
            if has_primary(s@, seq!['e', 'n']) {
                assert(s@.subrange(0, 2)[0] == 'e');
                assert(s@.subrange(0, 2)[1] == 'n');
            }
        }
        None
    }
}

/// The view of a list of strings as a sequence of character sequences.
pub open spec fn texts(v: Seq<String>) -> Seq<Seq<char>> {
    v.map_values(|s: String| s@)
}

/// The interface language the system prefers, from its preferred language tags in order.
pub fn system_locale(languages: &Vec<String>) -> (r: Locale)
    ensures
        r == system_locale_of(texts(languages@)),
{
    let mut i: usize = 0;
    assert(texts(languages@).skip(0) =~= texts(languages@));
    while i < languages.len()
        invariant
            i <= languages.len(),
            system_locale_of(texts(languages@)) == system_locale_of(texts(languages@).skip(i as int)),
        decreases languages.len() - i,
    {
        let found = language_locale(languages[i].as_str());
        proof {
            let rest = texts(languages@).skip(i as int);
            assert(rest[0] == languages@[i as int]@);
            assert(rest.drop_first() =~= texts(languages@).skip(i + 1));
        }
        match found {
            Some(l) => {
                return l;
            },
            None => {},
        }
        i = i + 1;
    }
    assert(texts(languages@).skip(i as int).len() == 0);
    Locale::English
}

} // verus!
