//! What the commands decide and show, apart from the requests themselves.

use vstd::prelude::*;
use vstd::string::StringExecFns;
use crate::error::Error;
use crate::json::{members_of, Json, JsonValue};
use crate::output::{line1, line2, line3, spans_of, Span, Style};
use crate::payload::{segments_of, RichTextSegment, SegmentView};
use crate::render::{
    block_tag_of, extract_property_value, extract_title, property_text, title_of,
};
use crate::text::{join2, opt_str, split_trimmed, split_trimmed_at, text_eq};

verus! {

/// The string member `key` of `item`, or `fallback` where it has none.
pub open spec fn text_or(item: JsonValue, key: Seq<char>, fallback: Seq<char>) -> Seq<char> {
    match item.text_at(key) {
        Some(t) => t,
        None => fallback,
    }
}

/// The identifier of a result, as shown in a listing.
pub open spec fn id_of(item: JsonValue) -> Seq<char> {
    text_or(item, "id"@, "no-id"@)
}

/// The identifier of an object that was just created.
pub open spec fn new_id_of(item: JsonValue) -> Seq<char> {
    text_or(item, "id"@, "unknown"@)
}

/// What kind of object a result is.
pub open spec fn object_type_of(item: JsonValue) -> Seq<char> {
    text_or(item, "object"@, "unknown"@)
}

/// The emoji that is the icon of a page.
pub open spec fn emoji_of(page: JsonValue) -> Option<Seq<char>> {
    match page.get("icon"@) {
        Some(icon) => icon.text_at("emoji"@),
        None => None,
    }
}

/// Whether the service reports the page as archived.
pub open spec fn archived_of(page: JsonValue) -> bool {
    match page.bool_at("archived"@) {
        Some(b) => b,
        None => false,
    }
}

/// Whether a property bears one of the names under which titles stand.
pub open spec fn is_title_name(name: Seq<char>) -> bool {
    name == "title"@ || name == "Name"@
}

/// Of the given properties, those that are shown, each with its text: a
/// property that holds the title is left out, and so is one without text.
pub open spec fn shown_members(members: Seq<(Seq<char>, JsonValue)>) -> Seq<(Seq<char>, Seq<char>)>
    decreases members.len(),
{
    if members.len() == 0 {
        Seq::empty()
    } else {
        let rest = shown_members(members.drop_last());
        let (name, value) = members.last();
        if is_title_name(name) {
            rest
        } else {
            match property_text(value) {
                Some(t) => rest.push((name, t)),
                None => rest,
            }
        }
    }
}

/// The properties of a row that are shown: of its first three, those that
/// do not hold the title and have text.
pub open spec fn shown_properties_of(item: JsonValue) -> Seq<(Seq<char>, Seq<char>)> {
    match item.get("properties"@) {
        Some(props) => match props.as_object() {
            Some(members) => shown_members(
                if members.len() <= 3 {
                    members
                } else {
                    members.take(3)
                },
            ),
            None => Seq::empty(),
        },
        None => Seq::empty(),
    }
}

/// The names and texts of a run of shown properties.
pub open spec fn pairs_of(pairs: Seq<(String, String)>) -> Seq<(Seq<char>, Seq<char>)> {
    pairs.map_values(|p: (String, String)| (p.0@, p.1@))
}

/// The segments of a paragraph with a link: the text before it, if any, the
/// link, and the text after it, if any.
pub open spec fn link_segments_of(
    prefix: Option<Seq<char>>,
    link_text: Seq<char>,
    url: Seq<char>,
    suffix: Option<Seq<char>>,
) -> Seq<SegmentView> {
    let before = match prefix {
        Some(p) => seq![SegmentView::Plain(p)],
        None => Seq::empty(),
    };
    let after = match suffix {
        Some(s) => seq![SegmentView::Plain(s)],
        None => Seq::empty(),
    };
    before + seq![SegmentView::Link { text: link_text, url }] + after
}

/// The line that names a result of a search.
pub open spec fn search_entry_of(item: JsonValue) -> Seq<(Seq<char>, Style)> {
    seq![
        ("  "@, Style::Plain),
        ("•"@, Style::Cyan),
        (" ["@ + object_type_of(item) + "] "@ + title_of(item), Style::Plain),
    ]
}

/// The line that names a row of a database.
pub open spec fn query_entry_of(item: JsonValue) -> Seq<(Seq<char>, Style)> {
    seq![("  "@, Style::Plain), ("•"@, Style::Cyan), (" "@ + title_of(item), Style::Plain)]
}

/// The line that shows the identifier of a result.
pub open spec fn id_line_of(item: JsonValue) -> Seq<(Seq<char>, Style)> {
    seq![("    ID: "@, Style::Plain), (id_of(item), Style::Dimmed)]
}

/// The line that shows one property of a row.
pub open spec fn property_line_of(name: Seq<char>, text: Seq<char>) -> Seq<(Seq<char>, Style)> {
    seq![("    "@, Style::Plain), (name, Style::Dimmed), (": "@ + text, Style::Plain)]
}

/// The line that shows the identifier and the type of a block.
pub open spec fn block_id_line_of(block: JsonValue) -> Seq<(Seq<char>, Style)> {
    seq![(id_of(block) + "  ["@ + block_tag_of(block) + "]"@, Style::Plain)]
}

fn member_text_or<'a>(item: &'a Json, key: &str, fallback: &'a str) -> (r: &'a str)
    ensures
        r@ == text_or(item@, key@, fallback@),
{
    match item.text_at(key) {
        Some(t) => t,
        None => fallback,
    }
}

/// The identifier of a result, as shown in a listing.
pub fn item_id(item: &Json) -> (r: String)
    ensures
        r@ == id_of(item@),
{
    member_text_or(item, "id", "no-id").to_owned()
}

/// The identifier of an object that was just created.
pub fn new_id(item: &Json) -> (r: String)
    ensures
        r@ == new_id_of(item@),
{
    member_text_or(item, "id", "unknown").to_owned()
}

/// What kind of object a result is.
pub fn object_type(item: &Json) -> (r: String)
    ensures
        r@ == object_type_of(item@),
{
    member_text_or(item, "object", "unknown").to_owned()
}

/// The address of a page, where the service gave one.
pub fn page_url(page: &Json) -> (r: Option<String>)
    ensures
        match r {
            Some(u) => page@.text_at("url"@) == Some(u@),
            None => page@.text_at("url"@).is_none(),
        },
{
    match page.text_at("url") {
        Some(u) => Some(u.to_owned()),
        None => None,
    }
}

/// The emoji that is the icon of a page.
pub fn icon_emoji(page: &Json) -> (r: Option<String>)
    ensures
        match r {
            Some(e) => emoji_of(page@) == Some(e@),
            None => emoji_of(page@).is_none(),
        },
{
    match page.get("icon") {
        Some(icon) => match icon.text_at("emoji") {
            Some(e) => Some(e.to_owned()),
            None => None,
        },
        None => None,
    }
}

/// Whether the service reports the page as archived.
pub fn is_archived(page: &Json) -> (r: bool)
    ensures
        r == archived_of(page@),
{
    match page.bool_at("archived") {
        Some(b) => b,
        None => false,
    }
}

/// An update must change the title or the icon.
pub fn check_update(title: Option<&str>, icon: Option<&str>) -> (r: Result<(), Error>)
    ensures
        r.is_err() <==> (title.is_none() && icon.is_none()),
        r.is_err() ==> r == Err::<(), Error>(Error::ValidationError),
{
    if title.is_none() && icon.is_none() {
        Err(Error::ValidationError)
    } else {
        Ok(())
    }
}

/// The items of a list that is written with commas between them.
pub fn list_items(items: &str) -> (r: Vec<String>)
    ensures
        r@.len() == split_trimmed_at(items@, ',').len(),
        forall|i: int| 0 <= i < r@.len() ==> (#[trigger] r@[i])@ == split_trimmed_at(items@, ',')[i],
{
    split_trimmed(items, ',')
}

/// The segments of a paragraph with a link.
pub fn link_segments(
    prefix: Option<&str>,
    link_text: &str,
    url: &str,
    suffix: Option<&str>,
) -> (r: Vec<RichTextSegment>)
    ensures
        segments_of(r@) == link_segments_of(opt_str(prefix), link_text@, url@, opt_str(suffix)),
{
    let mut segments: Vec<RichTextSegment> = Vec::new();
    if let Some(p) = prefix {
        segments.push(RichTextSegment::plain(p));
    }
    segments.push(RichTextSegment::link(link_text, url));
    if let Some(s) = suffix {
        segments.push(RichTextSegment::plain(s));
    }
    assert(segments_of(segments@) =~= link_segments_of(
        opt_str(prefix),
        link_text@,
        url@,
        opt_str(suffix),
    ));
    segments
}

/// The properties of a row that are shown, each with its text.
pub fn shown_properties(item: &Json) -> (r: Vec<(String, String)>)
    ensures
        pairs_of(r@) == shown_properties_of(item@),
{
    let mut out: Vec<(String, String)> = Vec::new();
    assert(pairs_of(out@) =~= Seq::empty());
    let members = match item.get("properties") {
        Some(props) => match props.as_object() {
            Some(members) => members,
            None => {
                return out;
            },
        },
        None => {
            return out;
        },
    };
    let n: usize = if members.len() <= 3 {
        members.len()
    } else {
        3
    };
    let ghost all = members_of(members@);
    let ghost first = if all.len() <= 3 {
        all
    } else {
        all.take(3)
    };
    assert(first =~= all.take(n as int));
    assert(all.take(0) =~= Seq::empty());
    let mut i: usize = 0;
    while i < n
        invariant
            i <= n,
            n <= members@.len(),
            all == members_of(members@),
            pairs_of(out@) == shown_members(all.take(i as int)),
        decreases n - i,
    {
        proof {
            assert(all.take(i + 1).drop_last() =~= all.take(i as int));
            assert(all.take(i + 1).last() == (members@[i as int].0@, members@[i as int].1@));
        }
        let name = members[i].0.as_str();
        if !(text_eq(name, "title") || text_eq(name, "Name")) {
            match extract_property_value(&members[i].1) {
                Some(t) => {
                    let ghost before = pairs_of(out@);
                    out.push((name.to_owned(), t));
                    assert(pairs_of(out@) =~= before.push((name@, t@)));
                },
                None => {},
            }
        }
        i = i + 1;
    }
    out
}

/// The line that names a result of a search.
pub fn search_entry(item: &Json) -> (r: Vec<Span>)
    ensures
        spans_of(r@) == search_entry_of(item@),
{
    let mut text = String::from_str(" [");
    text.append(member_text_or(item, "object", "unknown"));
    text.append("] ");
    text.append(extract_title(item).as_str());
    line3(Span::plain("  "), Span::styled("•", Style::Cyan), Span::new(text, Style::Plain))
}

/// The line that names a row of a database.
pub fn query_entry(item: &Json) -> (r: Vec<Span>)
    ensures
        spans_of(r@) == query_entry_of(item@),
{
    line3(
        Span::plain("  "),
        Span::styled("•", Style::Cyan),
        Span::new(join2(" ", extract_title(item).as_str()), Style::Plain),
    )
}

/// The line that shows the identifier of a result.
pub fn id_line(item: &Json) -> (r: Vec<Span>)
    ensures
        spans_of(r@) == id_line_of(item@),
{
    line2(Span::plain("    ID: "), Span::new(item_id(item), Style::Dimmed))
}

/// The line that shows one property of a row.
pub fn property_line(name: &str, text: &str) -> (r: Vec<Span>)
    ensures
        spans_of(r@) == property_line_of(name@, text@),
{
    line3(
        Span::plain("    "),
        Span::styled(name, Style::Dimmed),
        Span::new(join2(": ", text), Style::Plain),
    )
}

/// The line that shows the identifier and the type of a block.
pub fn block_id_line(block: &Json) -> (r: Vec<Span>)
    ensures
        spans_of(r@) == block_id_line_of(block@),
{
    let mut text = item_id(block);
    text.append("  [");
    text.append(member_text_or(block, "type", "unknown"));
    text.append("]");
    line1(Span::new(text, Style::Plain))
}

} // verus!
