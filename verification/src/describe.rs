use vstd::prelude::*;

use crate::locale::Locale;
use crate::mode::{label_text, Mode};
use crate::schedule::{date_of, date_weekday, day_at, day_index, has_day, weekday_of, zoned_date, Event, Weekday};
use crate::text::{join, joined};

verus! {

/// The days of a rule as one word, where there is one for them: every day,
/// Monday to Friday, or Saturday and Sunday.
pub open spec fn summary_of(days: Seq<Weekday>, locale: Locale) -> Option<Seq<char>> {
    let workdays = days.contains(Weekday::Mon) && days.contains(Weekday::Tue) && days.contains(Weekday::Wed)
        && days.contains(Weekday::Thu) && days.contains(Weekday::Fri);
    let no_workday = !days.contains(Weekday::Mon) && !days.contains(Weekday::Tue) && !days.contains(Weekday::Wed)
        && !days.contains(Weekday::Thu) && !days.contains(Weekday::Fri);
    let weekend = days.contains(Weekday::Sat) && days.contains(Weekday::Sun);
    let no_weekend = !days.contains(Weekday::Sat) && !days.contains(Weekday::Sun);
    if workdays && weekend {
        Some(match locale { Locale::English => "Every day"@, Locale::Chinese => "每天"@ })
    } else if workdays && no_weekend {
        Some(match locale { Locale::English => "Weekdays"@, Locale::Chinese => "工作日"@ })
    } else if no_workday && weekend {
        Some(match locale { Locale::English => "Weekends"@, Locale::Chinese => "周末"@ })
    } else {
        None
    }
}

/// The names of the listed days among the first `n` of the week, in the
/// week's order, `names` naming the days Monday first.
pub open spec fn listed(days: Seq<Weekday>, names: Seq<Seq<char>>, n: int) -> Seq<Seq<char>>
    decreases n,
{
    if n <= 0 {
        Seq::empty()
    } else if days.contains(day_at(n - 1)) {
        listed(days, names, n - 1).push(names[n - 1])
    } else {
        listed(days, names, n - 1)
    }
}

/// What stands between two day names.
pub open spec fn list_separator(locale: Locale) -> Seq<char> {
    match locale {
        Locale::English => ", "@,
        Locale::Chinese => "、"@,
    }
}

/// The one word for a rule's days, where there is one.
pub fn summary(days: &Vec<Weekday>, locale: Locale) -> (r: Option<&'static str>)
    ensures
        match (r, summary_of(days@, locale)) {
            (Some(a), Some(b)) => a@ == b,
            (None, None) => true,
            _ => false,
        },
{
    let mon = has_day(days, Weekday::Mon);
    let tue = has_day(days, Weekday::Tue);
    let wed = has_day(days, Weekday::Wed);
    let thu = has_day(days, Weekday::Thu);
    let fri = has_day(days, Weekday::Fri);
    let sat = has_day(days, Weekday::Sat);
    let sun = has_day(days, Weekday::Sun);
    let workdays = mon && tue && wed && thu && fri;
    let no_workday = !mon && !tue && !wed && !thu && !fri;
    if workdays && sat && sun {
        Some(match locale { Locale::English => "Every day", Locale::Chinese => "每天" })
    } else if workdays && !sat && !sun {
        Some(match locale { Locale::English => "Weekdays", Locale::Chinese => "工作日" })
    } else if no_workday && sat && sun {
        Some(match locale { Locale::English => "Weekends", Locale::Chinese => "周末" })
    } else {
        None
    }
}

/// The days of a rule as shown to the user, where the day names were read
/// (Monday first) or failed to be: the one word where there is one, else the
/// names of the days in the week's order, else the failure.
pub open spec fn days_result(days: Seq<Weekday>, names: Result<Seq<Seq<char>>, Seq<char>>, locale: Locale) -> Result<Seq<char>, Seq<char>> {
    match summary_of(days, locale) {
        Some(word) => Ok(word),
        None => match names {
            Ok(names) => Ok(joined(listed(days, names, 7), list_separator(locale))),
            Err(e) => Err(e),
        },
    }
}

/// The day names as plain values, or why they could not be read.
pub open spec fn names_view(names: Result<Vec<String>, String>) -> Result<Seq<Seq<char>>, Seq<char>> {
    match names {
        Ok(v) => Ok(v@.map_values(|n: String| n@)),
        Err(e) => Err(e@),
    }
}

/// The days of a rule as shown to the user: one word where there is one, else
/// the names of the days (from `names`, Monday first, as the platform read
/// them) in the week's order; where the names are needed and could not be
/// read, that failure.
pub fn days(rule_days: &Vec<Weekday>, names: &Result<Vec<String>, String>, locale: Locale) -> (r: Result<String, String>)
    requires
        summary_of(rule_days@, locale) is None && names is Ok ==> names->Ok_0@.len() >= 7,
    ensures
        match (r, days_result(rule_days@, names_view(*names), locale)) {
            (Ok(a), Ok(b)) => a@ == b,
            (Err(a), Err(b)) => a@ == b,
            _ => false,
        },
{
    match summary(rule_days, locale) {
        Some(word) => {
            return Ok(String::from_str(word));
        },
        None => {},
    }
    match names {
        Ok(names) => {
            let r = listed_days(rule_days, names, locale);
            assert(summary_of(rule_days@, locale) is None);
            Ok(r)
        },
        Err(error) => Err(error.clone()),
    }
}

/// The names of the days of a rule, in the week's order, joined.
fn listed_days(rule_days: &Vec<Weekday>, names: &Vec<String>, locale: Locale) -> (r: String)
    requires
        names@.len() >= 7,
    ensures
        r@ == joined(listed(rule_days@, names@.map_values(|n: String| n@), 7), list_separator(locale)),
{
    let ghost views = names@.map_values(|n: String| n@);
    let all = Weekday::all();
    let mut selected: Vec<String> = Vec::new();
    let mut i: usize = 0;
    while i < 7
        invariant
            i <= 7,
            names@.len() >= 7,
            all@.len() == 7,
            forall|k: int| 0 <= k < 7 ==> #[trigger] all@[k] == day_at(k),
            views == names@.map_values(|n: String| n@),
            selected@.map_values(|n: String| n@) == listed(rule_days@, views, i as int),
        decreases 7 - i,
    {
        let ghost before = selected@;
        if has_day(rule_days, all[i]) {
            selected.push(names[i].clone());
            assert(selected@.map_values(|n: String| n@) =~= before.map_values(|n: String| n@).push(views[i as int]));
        }
        i = i + 1;
    }
    let separator = match locale {
        Locale::English => ", ",
        Locale::Chinese => "、",
    };
    join(&selected, separator)
}

/// How a coming transition is announced, given the name of its day and its
/// time of day as the platform writes them.
pub open spec fn next_text(day: Seq<char>, time: Seq<char>, mode: Mode, locale: Locale) -> Seq<char> {
    match locale {
        Locale::English => "Switch to "@ + label_text(mode, locale) + " at "@ + day + " "@ + time,
        Locale::Chinese => day + time + "切换为"@ + label_text(mode, locale),
    }
}

/// Announces a coming transition, given the day names (Monday first) and the
/// time of day as the platform writes it.
pub fn next(event: &Event, names: &Vec<String>, time: &str, locale: Locale) -> (r: String)
    requires
        names@.len() == 7,
    ensures
        r@ == next_text(names@[day_index(weekday_of(date_of(event.at))) as int]@, time@, event.mode, locale),
{
    let day = date_weekday(zoned_date(&event.at));
    let name = names[day.index() as usize].as_str();
    let label = event.mode.label(locale);
    let r = match locale {
        Locale::English => String::from_str("Switch to ").concat(label).concat(" at ").concat(name).concat(" ").concat(time),
        Locale::Chinese => String::from_str(name).concat(time).concat("切换为").concat(label),
    };
    assert(r@ == next_text(names@[day_index(day) as int]@, time@, event.mode, locale));
    r
}

/// How a rule is captioned in its list, from its days and time as written.
pub open spec fn caption_text(days: Seq<char>, time: Seq<char>, mode: Mode, locale: Locale) -> Seq<char> {
    match locale {
        Locale::English => days + " at "@ + time + ", switch to "@ + label_text(mode, locale),
        Locale::Chinese => days + time + "切换为"@ + label_text(mode, locale),
    }
}

/// The caption of a rule in its list, from its days and its time as written
/// (see `days`); where either could not be written, the first error stands in
/// its place.
pub fn caption(days: Result<String, String>, time: Result<String, String>, mode: Mode, locale: Locale) -> (r: String)
    ensures
        days matches Err(e) ==> r@ == e@,
        days is Ok && time is Err ==> r@ == time->Err_0@,
        days is Ok && time is Ok ==> r@ == caption_text(days->Ok_0@, time->Ok_0@, mode, locale),
{
    let days = match days {
        Ok(days) => days,
        Err(error) => {
            return error;
        },
    };
    let time = match time {
        Ok(time) => time,
        Err(error) => {
            return error;
        },
    };
    let label = mode.label(locale);
    match locale {
        Locale::English => days.concat(" at ").concat(time.as_str()).concat(", switch to ").concat(label),
        Locale::Chinese => days.concat(time.as_str()).concat("切换为").concat(label),
    }
}

/// The line under a rule's time in its list: its days and its mode.
pub open spec fn detail_text(days: Seq<char>, mode: Mode, locale: Locale) -> Seq<char> {
    match locale {
        Locale::English => days + ", "@ + label_text(mode, locale),
        Locale::Chinese => days + "，"@ + label_text(mode, locale),
    }
}

/// The line under a rule's time: its days as written (or the error that
/// stands in their place) and its mode.
pub fn detail(days: Result<String, String>, mode: Mode, locale: Locale) -> (r: String)
    ensures
        r@ == detail_text(
            match days {
                Ok(d) => d@,
                Err(e) => e@,
            },
            mode,
            locale,
        ),
{
    let days = match days {
        Ok(days) => days,
        Err(error) => error,
    };
    let label = mode.label(locale);
    match locale {
        Locale::English => days.concat(", ").concat(label),
        Locale::Chinese => days.concat("，").concat(label),
    }
}

/// The word for a rule's days does not depend on the order in which they are
/// listed, nor on repeats: only on which days are listed.
pub proof fn summary_depends_on_the_days_only(a: Seq<Weekday>, b: Seq<Weekday>, locale: Locale)
    requires
        forall|d: Weekday| a.contains(d) <==> b.contains(d),
    ensures
        summary_of(a, locale) == summary_of(b, locale),
{
}

/// How a rule's days are shown depends only on which days are listed, not on
/// their order or repeats, whether or not the day names could be read.
pub proof fn days_shown_depend_on_the_days_only(a: Seq<Weekday>, b: Seq<Weekday>, names: Result<Seq<Seq<char>>, Seq<char>>, locale: Locale)
    requires
        forall|d: Weekday| a.contains(d) <==> b.contains(d),
    ensures
        days_result(a, names, locale) == days_result(b, names, locale),
{
    if names is Ok {
        lemma_listed_same(a, b, names->Ok_0, 7);
    }
}

proof fn lemma_listed_same(a: Seq<Weekday>, b: Seq<Weekday>, names: Seq<Seq<char>>, n: int)
    requires
        forall|d: Weekday| a.contains(d) <==> b.contains(d),
    ensures
        listed(a, names, n) == listed(b, names, n),
    decreases n,
{
    if n > 0 {
        lemma_listed_same(a, b, names, n - 1);
        assert(a.contains(day_at(n - 1)) == b.contains(day_at(n - 1)));
    }
}

/// Whether a set of days, given by the days listed, is exactly the days for
/// which `member` holds.
pub open spec fn lists_exactly(days: Seq<Weekday>, member: spec_fn(Weekday) -> bool) -> bool {
    forall|d: Weekday| #[trigger] days.contains(d) <==> member(d)
}

proof fn lemma_summary_words_differ()
    ensures
        "Every day"@ != "Weekdays"@,
        "Every day"@ != "Weekends"@,
        "Weekdays"@ != "Weekends"@,
        "每天"@ != "工作日"@,
        "每天"@ != "周末"@,
        "工作日"@ != "周末"@,
{
    reveal_strlit("Every day");
    reveal_strlit("Weekdays");
    reveal_strlit("Weekends");
    reveal_strlit("每天");
    reveal_strlit("工作日");
    reveal_strlit("周末");
    assert("Every day"@[0] != "Weekdays"@[0]);
    assert("Every day"@[0] != "Weekends"@[0]);
    assert("Weekdays"@[4] != "Weekends"@[4]);
    assert("每天"@.len() != "工作日"@.len());
    assert("每天"@[0] != "周末"@[0]);
    assert("工作日"@.len() != "周末"@.len());
}

/// One word stands for a rule's days exactly for three sets of days: every
/// day of the week ("Every day"), Monday to Friday ("Weekdays"), and Saturday
/// with Sunday ("Weekends"); any other set has no word and is listed by name.
pub proof fn summary_words_name_exact_sets(days: Seq<Weekday>)
    ensures
        summary_of(days, Locale::English) == Some("Every day"@) <==> lists_exactly(days, |d: Weekday| true),
        summary_of(days, Locale::English) == Some("Weekdays"@)
            <==> lists_exactly(days, |d: Weekday| d != Weekday::Sat && d != Weekday::Sun),
        summary_of(days, Locale::English) == Some("Weekends"@)
            <==> lists_exactly(days, |d: Weekday| d == Weekday::Sat || d == Weekday::Sun),
        summary_of(days, Locale::Chinese) == Some("每天"@) <==> lists_exactly(days, |d: Weekday| true),
        summary_of(days, Locale::Chinese) == Some("工作日"@)
            <==> lists_exactly(days, |d: Weekday| d != Weekday::Sat && d != Weekday::Sun),
        summary_of(days, Locale::Chinese) == Some("周末"@)
            <==> lists_exactly(days, |d: Weekday| d == Weekday::Sat || d == Weekday::Sun),
        summary_of(days, Locale::English) is None <==> summary_of(days, Locale::Chinese) is None,
        summary_of(days, Locale::English) is None <==> !lists_exactly(days, |d: Weekday| true)
            && !lists_exactly(days, |d: Weekday| d != Weekday::Sat && d != Weekday::Sun)
            && !lists_exactly(days, |d: Weekday| d == Weekday::Sat || d == Weekday::Sun),
{
    lemma_summary_words_differ();
    let all = |d: Weekday| true;
    let work = |d: Weekday| d != Weekday::Sat && d != Weekday::Sun;
    let end = |d: Weekday| d == Weekday::Sat || d == Weekday::Sun;
    let mon = days.contains(Weekday::Mon);
    let tue = days.contains(Weekday::Tue);
    let wed = days.contains(Weekday::Wed);
    let thu = days.contains(Weekday::Thu);
    let fri = days.contains(Weekday::Fri);
    let sat = days.contains(Weekday::Sat);
    let sun = days.contains(Weekday::Sun);
    assert(lists_exactly(days, all) <==> (mon && tue && wed && thu && fri && sat && sun)) by {
        if mon && tue && wed && thu && fri && sat && sun {
            assert forall|d: Weekday| #[trigger] days.contains(d) <==> all(d) by {
                match d { Weekday::Mon => {}, Weekday::Tue => {}, Weekday::Wed => {}, Weekday::Thu => {},
                    Weekday::Fri => {}, Weekday::Sat => {}, Weekday::Sun => {} }
            }
        }
    }
    assert(lists_exactly(days, work) <==> (mon && tue && wed && thu && fri && !sat && !sun)) by {
        if mon && tue && wed && thu && fri && !sat && !sun {
            assert forall|d: Weekday| #[trigger] days.contains(d) <==> work(d) by {
                match d { Weekday::Mon => {}, Weekday::Tue => {}, Weekday::Wed => {}, Weekday::Thu => {},
                    Weekday::Fri => {}, Weekday::Sat => {}, Weekday::Sun => {} }
            }
        }
        if lists_exactly(days, work) {
            assert(days.contains(Weekday::Mon) <==> work(Weekday::Mon));
            assert(days.contains(Weekday::Sat) <==> work(Weekday::Sat));
        }
    }
    assert(lists_exactly(days, end) <==> (!mon && !tue && !wed && !thu && !fri && sat && sun)) by {
        if !mon && !tue && !wed && !thu && !fri && sat && sun {
            assert forall|d: Weekday| #[trigger] days.contains(d) <==> end(d) by {
                match d { Weekday::Mon => {}, Weekday::Tue => {}, Weekday::Wed => {}, Weekday::Thu => {},
                    Weekday::Fri => {}, Weekday::Sat => {}, Weekday::Sun => {} }
            }
        }
        if lists_exactly(days, end) {
            assert(days.contains(Weekday::Mon) <==> end(Weekday::Mon));
            assert(days.contains(Weekday::Sat) <==> end(Weekday::Sat));
        }
    }
}

} // verus!
