//! Rendering of fetched catalog data into display text.
//!
//! One menu category becomes one section whose body lists every item as
//! `**name** - description`, one per line; an announcement becomes a
//! bold headline followed by its material lines.  Bodies are truncated
//! to the display medium's field-length limit before handoff.

use vstd::prelude::*;
use crate::catalog::{MenuItem, RawMaterial, Section, SectionV};

verus! {

/// The display medium caps a section body at this many characters.
pub const MAX_BODY_LEN: usize = 1024;

/// `parts` joined by `sep`.
pub open spec fn join_with(parts: Seq<Seq<char>>, sep: Seq<char>) -> Seq<char>
    decreases parts.len(),
{
    if parts.len() == 0 {
        Seq::empty()
    } else if parts.len() == 1 {
        parts[0]
    } else {
        join_with(parts.drop_last(), sep) + sep + parts.last()
    }
}

/// The rendered line for one menu item.
pub open spec fn item_line_s(it: MenuItem) -> Seq<char> {
    "**"@ + it.name@ + "** - "@ + it.description@
}

/// The body of a category section: every item's line joined by
/// newlines, or the empty-menu sentinel when no items came back.
pub open spec fn items_body_s(items: Seq<MenuItem>) -> Seq<char> {
    if items.len() == 0 {
        "There is nothing on the menu?"@
    } else {
        join_with(items.map_values(|it: MenuItem| item_line_s(it)), "\n"@)
    }
}

/// Render one item's line.
fn render_item_line(it: &MenuItem) -> (r: String)
    ensures
        r@ == item_line_s(*it),
{
    let mut line = String::from_str("**");
    line.append(it.name.as_str());
    line.append("** - ");
    line.append(it.description.as_str());
    line
}

/// Render a category's item list into a section body.
pub fn render_items(items: &Vec<MenuItem>) -> (r: String)
    ensures
        r@ == items_body_s(items@),
{
    let n = items.len();
    if n == 0 {
        return String::from_str("There is nothing on the menu?");
    }
    let ghost lines = items@.map_values(|it: MenuItem| item_line_s(it));
    let mut body = render_item_line(&items[0]);
    proof {
        assert(items@.take(1).map_values(|it: MenuItem| item_line_s(it)) =~= seq![lines[0]]);
        assert(body@ == join_with(items@.take(1).map_values(|it: MenuItem| item_line_s(it)), "\n"@));
    }
    let mut i: usize = 1;
    while i < n
        invariant
            1 <= i <= n,
            n == items@.len(),
            lines == items@.map_values(|it: MenuItem| item_line_s(it)),
            body@ == join_with(items@.take(i as int).map_values(|it: MenuItem| item_line_s(it)), "\n"@),
        decreases n - i,
    {
        body.append("\n");
        let line = render_item_line(&items[i]);
        body.append(line.as_str());
        proof {
            let taken = items@.take(i + 1).map_values(|it: MenuItem| item_line_s(it));
            assert(taken.drop_last() =~= items@.take(i as int).map_values(
                |it: MenuItem| item_line_s(it),
            ));
            assert(taken.last() == item_line_s(items@[i as int]));
        }
        i += 1;
    }
    proof {
        assert(items@.take(n as int) =~= items@);
    }
    body
}

/// The body of an announcement's material list: every material name
/// joined by newlines, or the empty-announcement sentinel.
pub open spec fn materials_body_s(mats: Seq<RawMaterial>) -> Seq<char> {
    if mats.len() == 0 {
        "The announcement is empty?"@
    } else {
        join_with(mats.map_values(|m: RawMaterial| m.name@), "\n"@)
    }
}

/// Render the material lines of an announcement.
pub fn render_materials(mats: &Vec<RawMaterial>) -> (r: String)
    ensures
        r@ == materials_body_s(mats@),
{
    let n = mats.len();
    if n == 0 {
        return String::from_str("The announcement is empty?");
    }
    let ghost lines = mats@.map_values(|m: RawMaterial| m.name@);
    let mut body = mats[0].name.clone();
    proof {
        assert(mats@.take(1).map_values(|m: RawMaterial| m.name@) =~= seq![lines[0]]);
    }
    let mut i: usize = 1;
    while i < n
        invariant
            1 <= i <= n,
            n == mats@.len(),
            lines == mats@.map_values(|m: RawMaterial| m.name@),
            body@ == join_with(mats@.take(i as int).map_values(|m: RawMaterial| m.name@), "\n"@),
        decreases n - i,
    {
        body.append("\n");
        body.append(mats[i].name.as_str());
        proof {
            let taken = mats@.take(i + 1).map_values(|m: RawMaterial| m.name@);
            assert(taken.drop_last() =~= mats@.take(i as int).map_values(
                |m: RawMaterial| m.name@,
            ));
            assert(taken.last() == mats@[i as int].name@);
        }
        i += 1;
    }
    proof {
        assert(mats@.take(n as int) =~= mats@);
    }
    body
}

/// The full announcement text: the first item's description as a bold
/// headline, a blank line, then the material lines.
pub open spec fn announcement_text_s(headline: Seq<char>, mats: Seq<RawMaterial>) -> Seq<char> {
    "**"@ + headline + "**\n\n"@ + materials_body_s(mats)
}

/// Render the full announcement text.
pub fn announcement_text(headline: &str, mats: &Vec<RawMaterial>) -> (r: String)
    ensures
        r@ == announcement_text_s(headline@, mats@),
{
    let mut text = String::from_str("**");
    text.append(headline);
    text.append("**\n\n");
    let body = render_materials(mats);
    text.append(body.as_str());
    text
}

/// A body made display-ready: cut to the field-length limit, and an
/// empty body replaced by the empty-menu sentinel.
pub open spec fn spec_truncate(s: Seq<char>) -> Seq<char> {
    let cut = if s.len() > MAX_BODY_LEN {
        s.subrange(0, MAX_BODY_LEN as int)
    } else {
        s
    };
    if cut.len() == 0 {
        "This menu is empty."@
    } else {
        cut
    }
}

/// Make one body display-ready.
pub fn truncate_body(s: &str) -> (r: String)
    ensures
        r@ == spec_truncate(s@),
{
    let len = s.unicode_len();
    if len == 0 {
        String::from_str("This menu is empty.")
    } else if len > MAX_BODY_LEN {
        String::from_str(s.substring_char(0, MAX_BODY_LEN))
    } else {
        String::from_str(s)
    }
}

/// Make every section display-ready: titles are kept, bodies truncated.
pub fn finalize_sections(sections: Vec<Section>) -> (r: Vec<Section>)
    ensures
        r@.len() == sections@.len(),
        forall|k: int|
            0 <= k < r@.len() ==> r@[k]@ == (SectionV {
                title: sections@[k]@.title,
                body: spec_truncate(sections@[k]@.body),
            }),
{
    let n = sections.len();
    let mut out: Vec<Section> = Vec::new();
    let mut i: usize = 0;
    while i < n
        invariant
            i <= n,
            n == sections@.len(),
            out@.len() == i,
            forall|k: int|
                0 <= k < i ==> out@[k]@ == (SectionV {
                    title: sections@[k]@.title,
                    body: spec_truncate(sections@[k]@.body),
                }),
        decreases n - i,
    {
        let body = truncate_body(sections[i].body.as_str());
        out.push(Section { title: sections[i].title.clone(), body });
        i += 1;
    }
    out
}

} // verus!
