//! Display text for what the service returns: titles, property values and
//! blocks.

use vstd::prelude::*;
use vstd::string::StringExecFns;
use crate::json::{values_of, Json, JsonValue};
use crate::output::{line1, line2, line3, spans_of, Span, Style};
use crate::text::{join2, text_eq};

verus! {

/// The `plain_text` of the first item, where it has one.
pub open spec fn first_plain_text_of(items: Seq<JsonValue>) -> Option<Seq<char>> {
    if items.len() > 0 {
        items[0].text_at("plain_text"@)
    } else {
        None
    }
}

/// The title that a property holds: the `plain_text` of the first item of
/// its array `title`.
pub open spec fn holder_title_of(holder: JsonValue) -> Option<Seq<char>> {
    match holder.array_at("title"@) {
        Some(items) => first_plain_text_of(items),
        None => None,
    }
}

/// The title that the property `name` holds, where there is such a property
/// and it holds one.
pub open spec fn held_title_of(props: JsonValue, name: Seq<char>) -> Option<Seq<char>> {
    match props.get(name) {
        Some(holder) => holder_title_of(holder),
        None => None,
    }
}

/// The title that stands under `properties`: the one that the property
/// `title` holds, or else the one that the property `Name` holds.
pub open spec fn property_title_of(item: JsonValue) -> Option<Seq<char>> {
    match item.get("properties"@) {
        Some(props) => or_else(held_title_of(props, "title"@), held_title_of(props, "Name"@)),
        None => None,
    }
}

/// The title that stands in the array `title` of the object itself.
pub open spec fn top_level_title_of(item: JsonValue) -> Option<Seq<char>> {
    match item.array_at("title"@) {
        Some(items) => first_plain_text_of(items),
        None => None,
    }
}

/// The title of a page or database: the one that `properties.title` holds,
/// then the one that `properties.Name` holds, then the one of the object
/// itself, then a fixed word for "none".
pub open spec fn title_of(item: JsonValue) -> Seq<char> {
    match property_title_of(item) {
        Some(t) => t,
        None => match top_level_title_of(item) {
            Some(t) => t,
            None => "(Untitled)"@,
        },
    }
}

/// The `plain_text` strings of the items, one after the other.
pub open spec fn plain_texts_of(items: Seq<JsonValue>) -> Seq<char>
    decreases items.len(),
{
    if items.len() == 0 {
        Seq::empty()
    } else {
        plain_texts_of(items.drop_last()) + match items.last().text_at("plain_text"@) {
            Some(t) => t,
            None => Seq::empty(),
        }
    }
}

/// `t`, unless it is empty.
pub open spec fn non_empty(t: Seq<char>) -> Option<Seq<char>> {
    if t.len() == 0 {
        None
    } else {
        Some(t)
    }
}

/// The text of the rich-text run that a block holds under its own type.
pub open spec fn rich_text_of(block: JsonValue, block_type: Seq<char>) -> Option<Seq<char>> {
    match block.get(block_type) {
        Some(body) => match body.array_at("rich_text"@) {
            Some(items) => non_empty(plain_texts_of(items)),
            None => None,
        },
        None => None,
    }
}

/// The `name` strings of the items, in their order.
pub open spec fn names_of(items: Seq<JsonValue>) -> Seq<Seq<char>>
    decreases items.len(),
{
    if items.len() == 0 {
        Seq::empty()
    } else {
        let rest = names_of(items.drop_last());
        match items.last().text_at("name"@) {
            Some(n) => rest.push(n),
            None => rest,
        }
    }
}

/// The parts with `sep` between each two of them.
pub open spec fn joined(parts: Seq<Seq<char>>, sep: Seq<char>) -> Seq<char>
    decreases parts.len(),
{
    if parts.len() == 0 {
        Seq::empty()
    } else if parts.len() == 1 {
        parts[0]
    } else {
        joined(parts.drop_last(), sep) + sep + parts.last()
    }
}

/// What a property of type `rich_text` shows.
pub open spec fn rich_text_value(prop: JsonValue) -> Option<Seq<char>> {
    match prop.array_at("rich_text"@) {
        Some(items) => non_empty(plain_texts_of(items)),
        None => None,
    }
}

/// What a property of type `select` shows.
pub open spec fn select_value(prop: JsonValue) -> Option<Seq<char>> {
    match prop.get("select"@) {
        Some(s) => s.text_at("name"@),
        None => None,
    }
}

/// What a property of type `multi_select` shows.
pub open spec fn multi_select_value(prop: JsonValue) -> Option<Seq<char>> {
    match prop.array_at("multi_select"@) {
        Some(items) => if names_of(items).len() == 0 {
            None
        } else {
            Some(joined(names_of(items), ", "@))
        },
        None => None,
    }
}

/// What a property of type `number` shows.
pub open spec fn number_value(prop: JsonValue) -> Option<Seq<char>> {
    match prop.get("number"@) {
        Some(n) => n.as_number(),
        None => None,
    }
}

/// What a property of type `checkbox` shows.
pub open spec fn checkbox_value(prop: JsonValue) -> Option<Seq<char>> {
    match prop.bool_at("checkbox"@) {
        Some(b) => Some(
            if b {
                "✓"@
            } else {
                "✗"@
            },
        ),
        None => None,
    }
}

/// What a property of type `date` shows.
pub open spec fn date_value(prop: JsonValue) -> Option<Seq<char>> {
    match prop.get("date"@) {
        Some(d) => d.text_at("start"@),
        None => None,
    }
}

/// What a property of type `url` shows.
pub open spec fn url_value(prop: JsonValue) -> Option<Seq<char>> {
    prop.text_at("url"@)
}

/// `a` if it is there, else `b`.
pub open spec fn or_else(a: Option<Seq<char>>, b: Option<Seq<char>>) -> Option<Seq<char>> {
    match a {
        Some(_) => a,
        None => b,
    }
}

/// What a property shows: the first of rich text, select, multi-select,
/// number, checkbox, date and URL that it holds; nothing if it holds none.
pub open spec fn property_text(prop: JsonValue) -> Option<Seq<char>> {
    or_else(
        rich_text_value(prop),
        or_else(
            select_value(prop),
            or_else(
                multi_select_value(prop),
                or_else(
                    number_value(prop),
                    or_else(checkbox_value(prop), or_else(date_value(prop), url_value(prop))),
                ),
            ),
        ),
    )
}

/// A title found under `properties` is the title, whatever the object itself
/// holds in its array `title`.
pub proof fn lemma_title_prefers_properties(item: JsonValue)
    requires
        property_title_of(item).is_some(),
    ensures
        title_of(item) == property_title_of(item).unwrap(),
{
}

/// Where the property `title` holds no title, the one that the property
/// `Name` holds is the title.
pub proof fn lemma_title_falls_back_to_name(item: JsonValue, props: JsonValue)
    requires
        item.get("properties"@) == Some(props),
        held_title_of(props, "title"@).is_none(),
        held_title_of(props, "Name"@).is_some(),
    ensures
        title_of(item) == held_title_of(props, "Name"@).unwrap(),
{
}

/// An object without a title in any of the places is shown as untitled.
pub proof fn lemma_title_untitled(item: JsonValue)
    requires
        property_title_of(item).is_none(),
        top_level_title_of(item).is_none(),
    ensures
        title_of(item) == "(Untitled)"@,
{
}

fn first_plain_text(items: &Vec<Json>) -> (r: Option<&str>)
    ensures
        match r {
            Some(t) => first_plain_text_of(values_of(items@)) == Some(t@),
            None => first_plain_text_of(values_of(items@)).is_none(),
        },
{
    if items.len() > 0 {
        items[0].text_at("plain_text")
    } else {
        None
    }
}

fn held_title<'a>(props: &'a Json, name: &str) -> (r: Option<&'a str>)
    ensures
        match r {
            Some(t) => held_title_of(props@, name@) == Some(t@),
            None => held_title_of(props@, name@).is_none(),
        },
{
    match props.get(name) {
        Some(holder) => match holder.array_at("title") {
            Some(items) => first_plain_text(items),
            None => None,
        },
        None => None,
    }
}

fn property_title(item: &Json) -> (r: Option<&str>)
    ensures
        match r {
            Some(t) => property_title_of(item@) == Some(t@),
            None => property_title_of(item@).is_none(),
        },
{
    match item.get("properties") {
        Some(props) => match held_title(props, "title") {
            Some(t) => Some(t),
            None => held_title(props, "Name"),
        },
        None => None,
    }
}

fn top_level_title(item: &Json) -> (r: Option<&str>)
    ensures
        match r {
            Some(t) => top_level_title_of(item@) == Some(t@),
            None => top_level_title_of(item@).is_none(),
        },
{
    match item.array_at("title") {
        Some(items) => first_plain_text(items),
        None => None,
    }
}

/// The title of a page or database.
pub fn extract_title(item: &Json) -> (r: String)
    ensures
        r@ == title_of(item@),
{
    match property_title(item) {
        Some(t) => t.to_owned(),
        None => match top_level_title(item) {
            Some(t) => t.to_owned(),
            None => String::from_str("(Untitled)"),
        },
    }
}

fn plain_texts(items: &Vec<Json>) -> (r: String)
    ensures
        r@ == plain_texts_of(values_of(items@)),
{
    let mut out = String::new();
    let mut i: usize = 0;
    while i < items.len()
        invariant
            i <= items@.len(),
            out@ == plain_texts_of(values_of(items@).take(i as int)),
        decreases items@.len() - i,
    {
        proof {
            let all = values_of(items@);
            assert(all.take(i + 1).drop_last() =~= all.take(i as int));
            assert(all.take(i + 1).last() == items@[i as int]@);
        }
        match items[i].text_at("plain_text") {
            Some(t) => {
                out.append(t);
            },
            None => {
                assert(out@ + Seq::<char>::empty() =~= out@);
            },
        }
        i = i + 1;
    }
    proof {
        let all = values_of(items@);
        assert(all.take(i as int) =~= all);
    }
    out
}

fn some_if_text(t: String) -> (r: Option<String>)
    ensures
        match r {
            Some(s) => non_empty(t@) == Some(s@),
            None => non_empty(t@).is_none(),
        },
{
    if t.as_str().is_empty() {
        None
    } else {
        Some(t)
    }
}

/// The text of the rich-text run that `block` holds under `block_type`.
pub fn extract_rich_text(block: &Json, block_type: &str) -> (r: Option<String>)
    ensures
        match r {
            Some(t) => rich_text_of(block@, block_type@) == Some(t@),
            None => rich_text_of(block@, block_type@).is_none(),
        },
{
    match block.get(block_type) {
        Some(body) => match body.array_at("rich_text") {
            Some(items) => some_if_text(plain_texts(items)),
            None => None,
        },
        None => None,
    }
}

fn joined_names(items: &Vec<Json>) -> (r: (String, usize))
    ensures
        r.0@ == joined(names_of(values_of(items@)), ", "@),
        r.1 == names_of(values_of(items@)).len(),
{
    let mut out = String::new();
    let mut count: usize = 0;
    let mut i: usize = 0;
    while i < items.len()
        invariant
            i <= items@.len(),
            count <= i,
            count == names_of(values_of(items@).take(i as int)).len(),
            out@ == joined(names_of(values_of(items@).take(i as int)), ", "@),
        decreases items@.len() - i,
    {
        proof {
            let all = values_of(items@);
            assert(all.take(i + 1).drop_last() =~= all.take(i as int));
            assert(all.take(i + 1).last() == items@[i as int]@);
        }
        match items[i].text_at("name") {
            Some(n) => {
                let ghost before = names_of(values_of(items@).take(i as int));
                proof {
                    assert(before.push(n@).drop_last() =~= before);
                }
                if count > 0 {
                    out.append(", ");
                } else {
                    proof {
                        assert(before =~= Seq::empty());
                        assert(Seq::<char>::empty() + n@ =~= n@);
                    }
                }
                out.append(n);
                count = count + 1;
            },
            None => {},
        }
        i = i + 1;
    }
    proof {
        let all = values_of(items@);
        assert(all.take(i as int) =~= all);
    }
    (out, count)
}

fn rich_text_text(prop: &Json) -> (r: Option<String>)
    ensures
        match r {
            Some(t) => rich_text_value(prop@) == Some(t@),
            None => rich_text_value(prop@).is_none(),
        },
{
    match prop.array_at("rich_text") {
        Some(items) => some_if_text(plain_texts(items)),
        None => None,
    }
}

fn select_text(prop: &Json) -> (r: Option<String>)
    ensures
        match r {
            Some(t) => select_value(prop@) == Some(t@),
            None => select_value(prop@).is_none(),
        },
{
    match prop.get("select") {
        Some(s) => match s.text_at("name") {
            Some(n) => Some(n.to_owned()),
            None => None,
        },
        None => None,
    }
}

fn multi_select_text(prop: &Json) -> (r: Option<String>)
    ensures
        match r {
            Some(t) => multi_select_value(prop@) == Some(t@),
            None => multi_select_value(prop@).is_none(),
        },
{
    match prop.array_at("multi_select") {
        Some(items) => {
            let (text, count) = joined_names(items);
            if count == 0 {
                None
            } else {
                Some(text)
            }
        },
        None => None,
    }
}

fn number_text(prop: &Json) -> (r: Option<String>)
    ensures
        match r {
            Some(t) => number_value(prop@) == Some(t@),
            None => number_value(prop@).is_none(),
        },
{
    match prop.get("number") {
        Some(n) => n.as_number(),
        None => None,
    }
}

fn checkbox_text(prop: &Json) -> (r: Option<String>)
    ensures
        match r {
            Some(t) => checkbox_value(prop@) == Some(t@),
            None => checkbox_value(prop@).is_none(),
        },
{
    match prop.bool_at("checkbox") {
        Some(b) => Some(
            if b {
                String::from_str("✓")
            } else {
                String::from_str("✗")
            },
        ),
        None => None,
    }
}

fn date_text(prop: &Json) -> (r: Option<String>)
    ensures
        match r {
            Some(t) => date_value(prop@) == Some(t@),
            None => date_value(prop@).is_none(),
        },
{
    match prop.get("date") {
        Some(d) => match d.text_at("start") {
            Some(s) => Some(s.to_owned()),
            None => None,
        },
        None => None,
    }
}

fn url_text(prop: &Json) -> (r: Option<String>)
    ensures
        match r {
            Some(t) => url_value(prop@) == Some(t@),
            None => url_value(prop@).is_none(),
        },
{
    match prop.text_at("url") {
        Some(u) => Some(u.to_owned()),
        None => None,
    }
}

/// What a property of a database row shows, if it is of a type that is shown.
pub fn extract_property_value(prop: &Json) -> (r: Option<String>)
    ensures
        match r {
            Some(t) => property_text(prop@) == Some(t@),
            None => property_text(prop@).is_none(),
        },
{
    if let Some(t) = rich_text_text(prop) {
        return Some(t);
    }
    if let Some(t) = select_text(prop) {
        return Some(t);
    }
    if let Some(t) = multi_select_text(prop) {
        return Some(t);
    }
    if let Some(t) = number_text(prop) {
        return Some(t);
    }
    if let Some(t) = checkbox_text(prop) {
        return Some(t);
    }
    if let Some(t) = date_text(prop) {
        return Some(t);
    }
    url_text(prop)
}

/// The kinds of block that are shown, and one for every other.
#[derive(Clone, Copy, Debug, PartialEq, Eq, Structural)]
pub enum BlockKind {
    Paragraph,
    Heading1,
    Heading2,
    Heading3,
    BulletedListItem,
    NumberedListItem,
    Code,
    Divider,
    Unknown,
}

/// The kind that a type tag names.
pub open spec fn block_kind_of(tag: Seq<char>) -> BlockKind {
    if tag == "paragraph"@ {
        BlockKind::Paragraph
    } else if tag == "heading_1"@ {
        BlockKind::Heading1
    } else if tag == "heading_2"@ {
        BlockKind::Heading2
    } else if tag == "heading_3"@ {
        BlockKind::Heading3
    } else if tag == "bulleted_list_item"@ {
        BlockKind::BulletedListItem
    } else if tag == "numbered_list_item"@ {
        BlockKind::NumberedListItem
    } else if tag == "code"@ {
        BlockKind::Code
    } else if tag == "divider"@ {
        BlockKind::Divider
    } else {
        BlockKind::Unknown
    }
}

/// The type tag of a block; `unknown` where it has none.
pub open spec fn block_tag_of(block: JsonValue) -> Seq<char> {
    match block.text_at("type"@) {
        Some(t) => t,
        None => "unknown"@,
    }
}

/// The line that shows a block of `kind` whose text is `t`.
pub open spec fn styled_block(kind: BlockKind, t: Seq<char>) -> Option<Seq<(Seq<char>, Style)>> {
    match kind {
        BlockKind::Paragraph => Some(seq![(t, Style::Plain)]),
        BlockKind::Heading1 => Some(seq![("\n"@, Style::Plain), ("# "@ + t, Style::Bold)]),
        BlockKind::Heading2 => Some(seq![("\n"@, Style::Plain), ("## "@ + t, Style::Bold)]),
        BlockKind::Heading3 => Some(seq![("\n"@, Style::Plain), ("### "@ + t, Style::Bold)]),
        BlockKind::BulletedListItem => Some(seq![("  • "@ + t, Style::Plain)]),
        BlockKind::NumberedListItem => Some(seq![("  1. "@ + t, Style::Plain)]),
        BlockKind::Code => Some(
            seq![("```\n"@, Style::Plain), (t, Style::Dimmed), ("\n```"@, Style::Plain)],
        ),
        BlockKind::Divider => Some(seq![("---"@, Style::Dimmed)]),
        BlockKind::Unknown => None,
    }
}

/// The line that shows a block: a divider always, a block of another known
/// kind where it holds text under its own type, and no other block.
pub open spec fn block_line(block: JsonValue) -> Option<Seq<(Seq<char>, Style)>> {
    let tag = block_tag_of(block);
    let kind = block_kind_of(tag);
    if kind == BlockKind::Divider {
        styled_block(kind, Seq::empty())
    } else if kind == BlockKind::Unknown {
        None
    } else {
        match rich_text_of(block, tag) {
            Some(t) => styled_block(kind, t),
            None => None,
        }
    }
}

/// The kind that a type tag names.
pub fn block_kind(tag: &str) -> (r: BlockKind)
    ensures
        r == block_kind_of(tag@),
{
    if text_eq(tag, "paragraph") {
        BlockKind::Paragraph
    } else if text_eq(tag, "heading_1") {
        BlockKind::Heading1
    } else if text_eq(tag, "heading_2") {
        BlockKind::Heading2
    } else if text_eq(tag, "heading_3") {
        BlockKind::Heading3
    } else if text_eq(tag, "bulleted_list_item") {
        BlockKind::BulletedListItem
    } else if text_eq(tag, "numbered_list_item") {
        BlockKind::NumberedListItem
    } else if text_eq(tag, "code") {
        BlockKind::Code
    } else if text_eq(tag, "divider") {
        BlockKind::Divider
    } else {
        BlockKind::Unknown
    }
}

fn style_block(kind: BlockKind, t: &str) -> (r: Option<Vec<Span>>)
    ensures
        match r {
            Some(line) => styled_block(kind, t@) == Some(spans_of(line@)),
            None => styled_block(kind, t@).is_none(),
        },
{
    match kind {
        BlockKind::Paragraph => Some(line1(Span::plain(t))),
        BlockKind::Heading1 => Some(
            line2(Span::plain("\n"), Span::new(join2("# ", t), Style::Bold)),
        ),
        BlockKind::Heading2 => Some(
            line2(Span::plain("\n"), Span::new(join2("## ", t), Style::Bold)),
        ),
        BlockKind::Heading3 => Some(
            line2(Span::plain("\n"), Span::new(join2("### ", t), Style::Bold)),
        ),
        BlockKind::BulletedListItem => Some(
            line1(Span::new(join2("  • ", t), Style::Plain)),
        ),
        BlockKind::NumberedListItem => Some(
            line1(Span::new(join2("  1. ", t), Style::Plain)),
        ),
        BlockKind::Code => Some(
            line3(Span::plain("```\n"), Span::styled(t, Style::Dimmed), Span::plain("\n```")),
        ),
        BlockKind::Divider => Some(line1(Span::styled("---", Style::Dimmed))),
        BlockKind::Unknown => None,
    }
}

/// The line that shows a block, if the block is shown.
///
/// A block of a kind that is not known is passed over, so that kinds which
/// the service adds later do no harm.
pub fn render_block(block: &Json) -> (r: Option<Vec<Span>>)
    ensures
        match r {
            Some(line) => block_line(block@) == Some(spans_of(line@)),
            None => block_line(block@).is_none(),
        },
{
    let tag = match block.text_at("type") {
        Some(t) => t,
        None => "unknown",
    };
    let kind = block_kind(tag);
    match kind {
        BlockKind::Divider => style_block(kind, ""),
        BlockKind::Unknown => None,
        _ => match extract_rich_text(block, tag) {
            Some(t) => style_block(kind, t.as_str()),
            None => None,
        },
    }
}

} // verus!
