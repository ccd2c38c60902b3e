//! User input surface: the free-text argument of a menu request.
//!
//! The input is split on spaces.  The meta-tokens asking for operating
//! hours or for announcements are recognized only when the entire input
//! is that single token; otherwise every token is tried as a day
//! override, and the rest accumulate into a custom meal filter.

use vstd::prelude::*;
use crate::temporal::{Day, Meal, spec_parse_day, parse_day, resolve_meal};
use crate::text::{contains_ci, contains_ci_s};

verus! {

/// Where one request is routed.
pub enum Route {
    Hours,
    Announcements,
    Menu { day: Day, meal: Meal },
}

/// The index of the last space in `s`, or a negative value if there is
/// none.
pub open spec fn last_space(s: Seq<char>) -> int
    decreases s.len(),
{
    if s.len() == 0 {
        -1
    } else if s.last() == ' ' {
        s.len() - 1
    } else {
        last_space(s.drop_last())
    }
}

/// `s` split on single spaces: every maximal (possibly empty) run
/// between spaces is one token, so the empty input yields one empty
/// token, exactly as the original free-text argument behaves.
pub open spec fn spec_split_spaces(s: Seq<char>) -> Seq<Seq<char>>
    decreases s.len(),
{
    let j = last_space(s);
    if j < 0 || j >= s.len() {
        seq![s]
    } else {
        spec_split_spaces(s.take(j)) + seq![s.skip(j + 1)]
    }
}

/// Appending one character moves the last space to it, or keeps it.
proof fn lemma_last_space_snoc(s: Seq<char>, c: char)
    ensures
        last_space(s.push(c)) == if c == ' ' {
            s.len() as int
        } else {
            last_space(s)
        },
{
    let t = s.push(c);
    assert(t.last() == c);
    if c != ' ' {
        assert(t.drop_last() =~= s);
    }
}

/// Split a string on single spaces.
pub fn split_spaces(s: &str) -> (r: Vec<String>)
    ensures
        r@.map_values(|t: String| t@) == spec_split_spaces(s@),
{
    let n = s.unicode_len();
    let mut out: Vec<String> = Vec::new();
    let mut start: usize = 0;
    let mut i: usize = 0;
    while i < n
        invariant
            start <= i <= n,
            n == s@.len(),
            last_space(s@.take(i as int)) == start as int - 1,
            out@.map_values(|t: String| t@).push(s@.subrange(start as int, i as int))
                == spec_split_spaces(s@.take(i as int)),
        decreases n - i,
    {
        let ghost pre = out@.map_values(|t: String| t@);
        let ghost prefix = s@.take(i as int);
        let c = s.get_char(i);
        proof {
            assert(s@.take(i + 1) =~= prefix.push(s@[i as int]));
            lemma_last_space_snoc(prefix, s@[i as int]);
        }
        if c == ' ' {
            let token = String::from_str(s.substring_char(start, i));
            out.push(token);
            start = i + 1;
            proof {
                assert(s@.take(i + 1).take(i as int) =~= prefix);
                assert(s@.take(i + 1).skip(i + 1) =~= Seq::<char>::empty());
                assert(spec_split_spaces(s@.take(i + 1)) == spec_split_spaces(prefix) + seq![
                    Seq::<char>::empty(),
                ]);
                assert(out@.map_values(|t: String| t@) =~= pre.push(token@));
                assert(out@.map_values(|t: String| t@) == spec_split_spaces(prefix));
                assert(s@.subrange(i + 1, i + 1) =~= Seq::<char>::empty());
                assert(out@.map_values(|t: String| t@).push(
                    s@.subrange(i + 1, i + 1),
                ) =~= spec_split_spaces(prefix) + seq![Seq::<char>::empty()]);
            }
        } else {
            proof {
                let j = last_space(prefix);
                assert(last_space(s@.take(i + 1)) == j);
                if j < 0 {
                    assert(start == 0);
                    assert(spec_split_spaces(prefix) == seq![prefix]);
                    assert(pre.push(s@.subrange(start as int, i as int)) == seq![prefix]);
                    assert(pre.push(s@.subrange(start as int, i as int)).len() == 1);
                    assert(pre.len() == 0);
                    assert(s@.subrange(0, i + 1) =~= s@.take(i + 1));
                    assert(spec_split_spaces(s@.take(i + 1)) == seq![s@.take(i + 1)]);
                    assert(pre.push(s@.subrange(start as int, i + 1)) =~= seq![s@.take(i + 1)]);
                } else {
                    assert(j == start - 1);
                    assert(j < i);
                    assert(s@.take(i + 1).take(j) =~= prefix.take(j));
                    assert(spec_split_spaces(s@.take(i + 1)) == spec_split_spaces(prefix.take(j))
                        + seq![s@.take(i + 1).skip(start as int)]);
                    assert(spec_split_spaces(prefix) == spec_split_spaces(prefix.take(j)) + seq![
                        prefix.skip(start as int),
                    ]);
                    assert(prefix.skip(start as int) =~= s@.subrange(start as int, i as int));
                    assert(pre =~= spec_split_spaces(prefix.take(j))) by {
                        let b = spec_split_spaces(prefix.take(j));
                        assert(pre.push(s@.subrange(start as int, i as int)) == b + seq![
                            prefix.skip(start as int),
                        ]);
                        assert(pre.len() == b.len());
                        assert forall|k: int| 0 <= k < pre.len() implies pre[k] == b[k] by {
                            assert(pre[k] == (b + seq![prefix.skip(start as int)])[k]);
                        }
                    }
                    assert(s@.take(i + 1).skip(start as int) =~= s@.subrange(start as int, i + 1));
                    assert(pre.push(s@.subrange(start as int, i + 1)) =~= spec_split_spaces(
                        s@.take(i + 1),
                    ));
                }
            }
        }
        i += 1;
    }
    let token = String::from_str(s.substring_char(start, n));
    out.push(token);
    proof {
        assert(s@.take(n as int) =~= s@);
        assert(out@.map_values(|t: String| t@) =~= spec_split_spaces(s@));
    }
    out
}

/// The entire input is one token asking for operating hours.
pub open spec fn is_meta_hours(toks: Seq<Seq<char>>) -> bool {
    toks.len() == 1 && (contains_ci_s(toks[0], "time"@) || contains_ci_s(toks[0], "hour"@))
}

/// The entire input is one token asking for announcements.
pub open spec fn is_meta_announce(toks: Seq<Seq<char>>) -> bool {
    &&& toks.len() == 1
    &&& !is_meta_hours(toks)
    &&& (contains_ci_s(toks[0], "announce"@) || contains_ci_s(toks[0], "schedule"@))
}

/// The day in force after all tokens are applied: the last token naming
/// a day wins; with none, the caller's default stands.
pub open spec fn day_override(toks: Seq<Seq<char>>, default: Day) -> Day
    decreases toks.len(),
{
    if toks.len() == 0 {
        default
    } else {
        match spec_parse_day(toks.last()) {
            Some(d) => d,
            None => day_override(toks.drop_last(), default),
        }
    }
}

/// The custom meal filter: every token that names no day, joined by
/// single spaces in input order.
pub open spec fn custom_meal_text(toks: Seq<Seq<char>>) -> Seq<char>
    decreases toks.len(),
{
    if toks.len() == 0 {
        Seq::empty()
    } else {
        let rest = custom_meal_text(toks.drop_last());
        if spec_parse_day(toks.last()) is Some {
            rest
        } else if rest.len() == 0 {
            toks.last()
        } else {
            rest + " "@ + toks.last()
        }
    }
}

/// Route one tokenized request.  A single meta-token shows the hours or
/// the announcements; otherwise the tokens override the caller's
/// default day and meal, and an unrecognized meal filter is carried as
/// `Other` — matched verbatim, never echoed as a title.
pub fn route_tokens(tokens: &Vec<String>, default_day: Day, default_meal: Meal) -> (r: Route)
    ensures
        ({
            let toks = tokens@.map_values(|t: String| t@);
            let c = custom_meal_text(toks);
            &&& (is_meta_hours(toks) <==> r is Hours)
            &&& (is_meta_announce(toks) <==> r is Announcements)
            &&& (!is_meta_hours(toks) && !is_meta_announce(toks) ==> (r matches Route::Menu {
                day,
                meal,
            } && day == day_override(toks, default_day) && (c.len() == 0 ==> meal == default_meal)
                && (c.len() > 0 && contains_ci_s(c, "breakfast"@) ==> meal == Meal::Breakfast) && (
            c.len() > 0 && !contains_ci_s(c, "breakfast"@) && contains_ci_s(c, "lunch"@)
                ==> meal == Meal::Lunch) && (c.len() > 0 && !contains_ci_s(c, "breakfast"@)
                && !contains_ci_s(c, "lunch"@) && contains_ci_s(c, "dinner"@) ==> meal
                == Meal::Dinner) && (c.len() > 0 && !contains_ci_s(c, "breakfast"@)
                && !contains_ci_s(c, "lunch"@) && !contains_ci_s(c, "dinner"@) ==> (
            meal matches Meal::Other(t) && t@ == c))))
        }),
{
    let ghost toks = tokens@.map_values(|t: String| t@);
    if tokens.len() == 1 {
        let t = tokens[0].as_str();
        if contains_ci(t, "time") || contains_ci(t, "hour") {
            return Route::Hours;
        }
        if contains_ci(t, "announce") || contains_ci(t, "schedule") {
            return Route::Announcements;
        }
    }
    let n = tokens.len();
    let mut day = default_day;
    let mut custom = String::new();
    let mut i: usize = 0;
    while i < n
        invariant
            i <= n,
            n == tokens@.len(),
            toks == tokens@.map_values(|t: String| t@),
            day == day_override(toks.take(i as int), default_day),
            custom@ == custom_meal_text(toks.take(i as int)),
        decreases n - i,
    {
        proof {
            assert(toks.take(i + 1).drop_last() =~= toks.take(i as int));
            assert(toks.take(i + 1).last() == toks[i as int]);
        }
        match parse_day(tokens[i].as_str()) {
            Some(d) => {
                day = d;
            },
            None => {
                if !custom.as_str().is_empty() {
                    custom.append(" ");
                }
                custom.append(tokens[i].as_str());
            },
        }
        i += 1;
    }
    proof {
        assert(toks.take(n as int) =~= toks);
    }
    let meal = if custom.as_str().is_empty() {
        default_meal
    } else {
        resolve_meal(custom.as_str())
    };
    Route::Menu { day, meal }
}

} // verus!
