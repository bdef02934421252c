//! The JSON bodies of the requests, with the field names that the service
//! expects.

use vstd::prelude::*;
use crate::text::{opt_str, opt_text};
use crate::filter::{filter_json, parse_filter, parsed_filter, sorts, sorts_json};
use crate::json::{obj1, obj2, obj3, values_of, Json, JsonValue};
use crate::render::title_of;

verus! {

/// A piece of the text of a paragraph.
#[derive(Debug, PartialEq, Eq)]
pub enum RichTextSegment {
    /// Text as it stands.
    Plain(String),
    /// Text that leads to an address.
    Link { text: String, url: String },
}

/// The mathematical value of a [`RichTextSegment`].
pub enum SegmentView {
    Plain(Seq<char>),
    Link { text: Seq<char>, url: Seq<char> },
}

impl View for RichTextSegment {
    type V = SegmentView;

    open spec fn view(&self) -> SegmentView {
        match self {
            RichTextSegment::Plain(t) => SegmentView::Plain(t@),
            RichTextSegment::Link { text, url } => SegmentView::Link { text: text@, url: url@ },
        }
    }
}

impl RichTextSegment {
    /// A segment of plain text.
    pub fn plain(text: &str) -> (r: RichTextSegment)
        ensures
            r@ == SegmentView::Plain(text@),
    {
        RichTextSegment::Plain(text.to_owned())
    }

    /// A segment of text that leads to `url`.
    pub fn link(text: &str, url: &str) -> (r: RichTextSegment)
        ensures
            r@ == (SegmentView::Link { text: text@, url: url@ }),
    {
        RichTextSegment::Link { text: text.to_owned(), url: url.to_owned() }
    }
}

/// A run of plain text.
pub open spec fn text_run_json(content: Seq<char>) -> JsonValue {
    obj2("type"@, JsonValue::Text("text"@), "text"@, obj1("content"@, JsonValue::Text(content)))
}

/// A run of text that leads to `url`.
pub open spec fn link_run_json(content: Seq<char>, url: Seq<char>) -> JsonValue {
    obj2(
        "type"@,
        JsonValue::Text("text"@),
        "text"@,
        obj2("content"@, JsonValue::Text(content), "link"@, obj1("url"@, JsonValue::Text(url))),
    )
}

/// The run that writes a segment.
pub open spec fn segment_json(segment: SegmentView) -> JsonValue {
    match segment {
        SegmentView::Plain(t) => text_run_json(t),
        SegmentView::Link { text, url } => link_run_json(text, url),
    }
}

/// A block of the type `kind` that holds `body` under that name.
pub open spec fn block_json(kind: Seq<char>, body: JsonValue) -> JsonValue {
    obj3("object"@, JsonValue::Text("block"@), "type"@, JsonValue::Text(kind), kind, body)
}

/// A block of the type `kind` whose text is the one plain run `content`.
pub open spec fn text_block_json(kind: Seq<char>, content: Seq<char>) -> JsonValue {
    block_json(kind, obj1("rich_text"@, JsonValue::Array(seq![text_run_json(content)])))
}

/// A paragraph of plain text.
pub open spec fn paragraph_json(content: Seq<char>) -> JsonValue {
    text_block_json("paragraph"@, content)
}

/// A block of code in `language`.
pub open spec fn code_json(code: Seq<char>, language: Seq<char>) -> JsonValue {
    block_json(
        "code"@,
        obj2(
            "rich_text"@,
            JsonValue::Array(seq![text_run_json(code)]),
            "language"@,
            JsonValue::Text(language),
        ),
    )
}

/// A bookmark of `url`, with a caption if one is given.
pub open spec fn bookmark_json(url: Seq<char>, caption: Option<Seq<char>>) -> JsonValue {
    block_json(
        "bookmark"@,
        obj2(
            "url"@,
            JsonValue::Text(url),
            "caption"@,
            JsonValue::Array(
                match caption {
                    Some(c) => seq![text_run_json(c)],
                    None => Seq::empty(),
                },
            ),
        ),
    )
}

/// The block type of a heading of the given level, for the levels 1 to 3.
pub open spec fn heading_kind(level: u8) -> Option<Seq<char>> {
    if level == 1 {
        Some("heading_1"@)
    } else if level == 2 {
        Some("heading_2"@)
    } else if level == 3 {
        Some("heading_3"@)
    } else {
        None
    }
}

/// A divider.
pub open spec fn divider_json() -> JsonValue {
    block_json("divider"@, JsonValue::Object(Seq::empty()))
}

/// One item of a bulleted list.
pub open spec fn bullet_json(item: Seq<char>) -> JsonValue {
    text_block_json("bulleted_list_item"@, item)
}

/// The texts of a run of strings.
pub open spec fn texts_of(items: Seq<String>) -> Seq<Seq<char>> {
    items.map_values(|s: String| s@)
}

/// The items of a bulleted list, one block each.
pub open spec fn bullets_json(items: Seq<Seq<char>>) -> Seq<JsonValue> {
    items.map_values(|i: Seq<char>| bullet_json(i))
}

/// The values of a run of segments.
pub open spec fn segments_of(segments: Seq<RichTextSegment>) -> Seq<SegmentView> {
    segments.map_values(|s: RichTextSegment| s@)
}

/// A paragraph of the given segments.
pub open spec fn rich_paragraph_json(segments: Seq<SegmentView>) -> JsonValue {
    block_json(
        "paragraph"@,
        obj1(
            "rich_text"@,
            JsonValue::Array(segments.map_values(|s: SegmentView| segment_json(s))),
        ),
    )
}

/// The body that appends `blocks` to a page or block.
pub open spec fn children_json(blocks: Seq<JsonValue>) -> JsonValue {
    obj1("children"@, JsonValue::Array(blocks))
}

/// The properties that give a page its title.
pub open spec fn title_property_json(title: Seq<char>) -> JsonValue {
    obj1(
        "title"@,
        obj1(
            "title"@,
            JsonValue::Array(seq![obj1("text"@, obj1("content"@, JsonValue::Text(title)))]),
        ),
    )
}

/// The body that creates a page under `parent` with the given children.
pub open spec fn new_page_json(
    parent: Seq<char>,
    title: Seq<char>,
    children: Seq<JsonValue>,
) -> JsonValue {
    obj3(
        "parent"@,
        obj1("page_id"@, JsonValue::Text(parent)),
        "properties"@,
        title_property_json(title),
        "children"@,
        JsonValue::Array(children),
    )
}

/// The body that creates a page: its parent, its title, and one paragraph
/// where content is given.
pub open spec fn create_page_json(
    parent: Seq<char>,
    title: Seq<char>,
    content: Option<Seq<char>>,
) -> JsonValue {
    new_page_json(
        parent,
        title,
        match content {
            Some(c) => seq![paragraph_json(c)],
            None => Seq::empty(),
        },
    )
}

/// An emoji as the icon of a page.
pub open spec fn icon_json(emoji: Seq<char>) -> JsonValue {
    obj2("type"@, JsonValue::Text("emoji"@), "emoji"@, JsonValue::Text(emoji))
}

/// `body` with the member `k`, where a value for it is given.
pub open spec fn with_optional(body: JsonValue, k: Seq<char>, v: Option<JsonValue>) -> JsonValue {
    match v {
        Some(v) => body.with_member(k, v),
        None => body,
    }
}

/// The body that updates a page: only what is given is named.
pub open spec fn update_page_json(title: Option<Seq<char>>, icon: Option<Seq<char>>) -> JsonValue {
    with_optional(
        with_optional(
            JsonValue::Object(Seq::empty()),
            "properties"@,
            match title {
                Some(t) => Some(title_property_json(t)),
                None => None,
            },
        ),
        "icon"@,
        match icon {
            Some(e) => Some(icon_json(e)),
            None => None,
        },
    )
}

/// The body that moves a page to the trash.
pub open spec fn archive_json() -> JsonValue {
    obj1("archived"@, JsonValue::Bool(true))
}

/// The cursor as a JSON string, where there is one.
pub open spec fn cursor_json(cursor: Option<Seq<char>>) -> Option<JsonValue> {
    match cursor {
        Some(c) => Some(JsonValue::Text(c)),
        None => None,
    }
}

/// The body of a search for `query`.
pub open spec fn search_json(
    query: Seq<char>,
    page_size: usize,
    cursor: Option<Seq<char>>,
) -> JsonValue {
    with_optional(
        obj2("query"@, JsonValue::Text(query), "page_size"@, JsonValue::Integer(page_size as u64)),
        "start_cursor"@,
        cursor_json(cursor),
    )
}

/// The filter of a query as the service reads it, where the text writes one.
pub open spec fn filter_member(filter: Option<Seq<char>>) -> Option<JsonValue> {
    match filter {
        Some(text) => match parsed_filter(text) {
            Some(f) => Some(filter_json(f)),
            None => None,
        },
        None => None,
    }
}

/// The sort order of a query as the service reads it, where one is asked for.
pub open spec fn sorts_member(sort: Option<Seq<char>>, direction: Seq<char>) -> Option<JsonValue> {
    match sort {
        Some(property) => Some(sorts_json(property, direction)),
        None => None,
    }
}

/// The body of a database query: the page size, then the cursor, the filter
/// and the sort order, each where there is one.
pub open spec fn query_json(
    page_size: usize,
    cursor: Option<Seq<char>>,
    filter: Option<Seq<char>>,
    sort: Option<Seq<char>>,
    direction: Seq<char>,
) -> JsonValue {
    with_optional(
        with_optional(
            with_optional(
                obj1("page_size"@, JsonValue::Integer(page_size as u64)),
                "start_cursor"@,
                cursor_json(cursor),
            ),
            "filter"@,
            filter_member(filter),
        ),
        "sorts"@,
        sorts_member(sort, direction),
    )
}

/// The block that stands for `block` in a copy of its page: its type, and
/// what it holds under its type. A block without either has no copy.
pub open spec fn mirrored_block(block: JsonValue) -> Option<JsonValue> {
    match block.text_at("type"@) {
        Some(kind) => match block.get(kind) {
            Some(body) => Some(block_json(kind, body)),
            None => None,
        },
        None => None,
    }
}

/// The copies of the blocks that have one, in their order.
pub open spec fn mirrored_blocks(blocks: Seq<JsonValue>) -> Seq<JsonValue>
    decreases blocks.len(),
{
    if blocks.len() == 0 {
        Seq::empty()
    } else {
        let rest = mirrored_blocks(blocks.drop_last());
        match mirrored_block(blocks.last()) {
            Some(b) => rest.push(b),
            None => rest,
        }
    }
}

/// The body that creates, under `parent`, a copy of `page` with `blocks` as
/// its content.
pub open spec fn copy_page_json(
    parent: Seq<char>,
    page: JsonValue,
    blocks: Seq<JsonValue>,
) -> JsonValue {
    new_page_json(parent, title_of(page), mirrored_blocks(blocks))
}

/// A run of plain text.
pub fn text_run(content: &str) -> (r: Json)
    ensures
        r@ == text_run_json(content@),
{
    Json::object2("type", Json::text("text"), "text", Json::object1("content", Json::text(content)))
}

/// The run that writes a segment.
pub fn segment_run(segment: &RichTextSegment) -> (r: Json)
    ensures
        r@ == segment_json(segment@),
{
    match segment {
        RichTextSegment::Plain(t) => text_run(t.as_str()),
        RichTextSegment::Link { text, url } => Json::object2(
            "type",
            Json::text("text"),
            "text",
            Json::object2(
                "content",
                Json::text(text.as_str()),
                "link",
                Json::object1("url", Json::text(url.as_str())),
            ),
        ),
    }
}

/// A block of the type `kind` that holds `body` under that name.
pub fn block(kind: &str, body: Json) -> (r: Json)
    ensures
        r@ == block_json(kind@, body@),
{
    Json::object3("object", Json::text("block"), "type", Json::text(kind), kind, body)
}

/// A block of the type `kind` whose text is the one plain run `content`.
pub fn text_block(kind: &str, content: &str) -> (r: Json)
    ensures
        r@ == text_block_json(kind@, content@),
{
    block(kind, Json::object1("rich_text", Json::array1(text_run(content))))
}

/// A paragraph of plain text.
pub fn paragraph(content: &str) -> (r: Json)
    ensures
        r@ == paragraph_json(content@),
{
    text_block("paragraph", content)
}

/// A block of code in `language`.
pub fn code_block(code: &str, language: &str) -> (r: Json)
    ensures
        r@ == code_json(code@, language@),
{
    block(
        "code",
        Json::object2(
            "rich_text",
            Json::array1(text_run(code)),
            "language",
            Json::text(language),
        ),
    )
}

/// A bookmark of `url`, with a caption if one is given.
pub fn bookmark(url: &str, caption: Option<&str>) -> (r: Json)
    ensures
        r@ == bookmark_json(url@, opt_str(caption)),
{
    let mut runs: Vec<Json> = Vec::new();
    match caption {
        Some(c) => {
            runs.push(text_run(c));
            assert(values_of(runs@) =~= seq![text_run_json(c@)]);
        },
        None => {
            assert(values_of(runs@) =~= Seq::empty());
        },
    }
    block("bookmark", Json::object2("url", Json::text(url), "caption", Json::array(runs)))
}

/// A divider.
pub fn divider() -> (r: Json)
    ensures
        r@ == divider_json(),
{
    block("divider", Json::object0())
}

/// The items of a bulleted list, one block each.
pub fn bullets(items: &Vec<String>) -> (r: Vec<Json>)
    ensures
        values_of(r@) == bullets_json(texts_of(items@)),
{
    let mut out: Vec<Json> = Vec::new();
    let mut i: usize = 0;
    while i < items.len()
        invariant
            i <= items@.len(),
            out@.len() == i,
            forall|k: int| 0 <= k < i ==> (#[trigger] out@[k])@ == bullet_json(items@[k]@),
        decreases items@.len() - i,
    {
        out.push(text_block("bulleted_list_item", items[i].as_str()));
        i = i + 1;
    }
    assert(values_of(out@) =~= bullets_json(texts_of(items@)));
    out
}

/// A paragraph of the given segments.
pub fn rich_paragraph(segments: &Vec<RichTextSegment>) -> (r: Json)
    ensures
        r@ == rich_paragraph_json(segments_of(segments@)),
{
    let mut runs: Vec<Json> = Vec::new();
    let mut i: usize = 0;
    while i < segments.len()
        invariant
            i <= segments@.len(),
            runs@.len() == i,
            forall|k: int| 0 <= k < i ==> (#[trigger] runs@[k])@ == segment_json(segments@[k]@),
        decreases segments@.len() - i,
    {
        runs.push(segment_run(&segments[i]));
        i = i + 1;
    }
    assert(values_of(runs@) =~= segments_of(segments@).map_values(
        |s: SegmentView| segment_json(s),
    ));
    block("paragraph", Json::object1("rich_text", Json::array(runs)))
}

/// The body that appends `blocks` to a page or block.
pub fn children(blocks: Vec<Json>) -> (r: Json)
    ensures
        r@ == children_json(values_of(blocks@)),
{
    Json::object1("children", Json::array(blocks))
}

/// The body that appends the one block `b`.
pub fn only_child(b: Json) -> (r: Json)
    ensures
        r@ == children_json(seq![b@]),
{
    Json::object1("children", Json::array1(b))
}

/// The properties that give a page its title.
pub fn title_property(title: &str) -> (r: Json)
    ensures
        r@ == title_property_json(title@),
{
    Json::object1(
        "title",
        Json::object1(
            "title",
            Json::array1(Json::object1("text", Json::object1("content", Json::text(title)))),
        ),
    )
}

/// The body that creates a page under `parent` with the given children.
pub fn new_page(parent: &str, title: &str, blocks: Vec<Json>) -> (r: Json)
    ensures
        r@ == new_page_json(parent@, title@, values_of(blocks@)),
{
    Json::object3(
        "parent",
        Json::object1("page_id", Json::text(parent)),
        "properties",
        title_property(title),
        "children",
        Json::array(blocks),
    )
}

/// The body that creates a page.
pub fn create_page_body(parent: &str, title: &str, content: Option<&str>) -> (r: Json)
    ensures
        r@ == create_page_json(parent@, title@, opt_str(content)),
{
    let mut blocks: Vec<Json> = Vec::new();
    match content {
        Some(c) => {
            blocks.push(paragraph(c));
            assert(values_of(blocks@) =~= seq![paragraph_json(c@)]);
        },
        None => {
            assert(values_of(blocks@) =~= Seq::empty());
        },
    }
    new_page(parent, title, blocks)
}

/// The body that updates a page.
pub fn update_page_body(title: Option<&str>, icon: Option<&str>) -> (r: Json)
    ensures
        r@ == update_page_json(opt_str(title), opt_str(icon)),
{
    let mut body = Json::object0();
    if let Some(t) = title {
        body = body.with_member("properties", title_property(t));
    }
    if let Some(e) = icon {
        body = body.with_member(
            "icon",
            Json::object2("type", Json::text("emoji"), "emoji", Json::text(e)),
        );
    }
    body
}

/// The body that moves a page to the trash.
pub fn archive_body() -> (r: Json)
    ensures
        r@ == archive_json(),
{
    Json::object1("archived", Json::Bool(true))
}

fn with_cursor(body: Json, cursor: &Option<String>) -> (r: Json)
    ensures
        r@ == with_optional(body@, "start_cursor"@, cursor_json(opt_text(*cursor))),
{
    match cursor {
        Some(c) => body.with_member("start_cursor", Json::text(c.as_str())),
        None => body,
    }
}

/// The body of a search for `query`.
pub fn search_body(query: &str, page_size: usize, cursor: &Option<String>) -> (r: Json)
    ensures
        r@ == search_json(query@, page_size, opt_text(*cursor)),
{
    with_cursor(
        Json::object2("query", Json::text(query), "page_size", Json::Integer(page_size as u64)),
        cursor,
    )
}

/// The body of a database query.
pub fn query_body(
    page_size: usize,
    cursor: &Option<String>,
    filter: Option<&str>,
    sort: Option<&str>,
    direction: &str,
) -> (r: Json)
    ensures
        r@ == query_json(
            page_size,
            opt_text(*cursor),
            opt_str(filter),
            opt_str(sort),
            direction@,
        ),
{
    let mut body = with_cursor(Json::object1("page_size", Json::Integer(page_size as u64)), cursor);
    if let Some(text) = filter {
        if let Some(f) = parse_filter(text) {
            body = body.with_member("filter", f.to_json());
        }
    }
    if let Some(property) = sort {
        body = body.with_member("sorts", sorts(property, direction));
    }
    body
}

/// The block that stands for `block` in a copy of its page.
pub fn mirror_block(b: &Json) -> (r: Option<Json>)
    ensures
        match r {
            Some(m) => mirrored_block(b@) == Some(m@),
            None => mirrored_block(b@).is_none(),
        },
{
    match b.text_at("type") {
        Some(kind) => match b.get(kind) {
            Some(body) => Some(block(kind, body.duplicate())),
            None => None,
        },
        None => None,
    }
}

/// The copies of the blocks that have one, in their order.
pub fn mirror_blocks(blocks: &Vec<Json>) -> (r: Vec<Json>)
    ensures
        values_of(r@) == mirrored_blocks(values_of(blocks@)),
{
    let mut out: Vec<Json> = Vec::new();
    let mut i: usize = 0;
    assert(values_of(out@) =~= Seq::empty());
    assert(values_of(blocks@).take(0) =~= Seq::empty());
    while i < blocks.len()
        invariant
            i <= blocks@.len(),
            values_of(out@) == mirrored_blocks(values_of(blocks@).take(i as int)),
        decreases blocks@.len() - i,
    {
        proof {
            let all = values_of(blocks@);
            assert(all.take(i + 1).drop_last() =~= all.take(i as int));
            assert(all.take(i + 1).last() == blocks@[i as int]@);
        }
        match mirror_block(&blocks[i]) {
            Some(m) => {
                let ghost before = values_of(out@);
                out.push(m);
                assert(values_of(out@) =~= before.push(m@));
            },
            None => {},
        }
        i = i + 1;
    }
    proof {
        let all = values_of(blocks@);
        assert(all.take(i as int) =~= all);
    }
    out
}

} // verus!
