use notion_cli::json::Json;
use notion_cli::output::{Span, Style};
use notion_cli::render::{
    block_kind, extract_property_value, extract_rich_text, extract_title, render_block, BlockKind,
};

fn text(s: &str) -> Json {
    Json::Text(s.to_string())
}

fn obj(members: Vec<(&str, Json)>) -> Json {
    Json::Object(members.into_iter().map(|(k, v)| (k.to_string(), v)).collect())
}

fn arr(items: Vec<Json>) -> Json {
    Json::Array(items)
}

fn plain(s: &str) -> Json {
    obj(vec![("plain_text", text(s))])
}

fn span(s: &str, style: Style) -> Span {
    Span { text: s.to_string(), style }
}

fn block(kind: &str, pieces: Vec<&str>) -> Json {
    obj(vec![
        ("object", text("block")),
        ("type", text(kind)),
        (kind, obj(vec![("rich_text", arr(pieces.into_iter().map(plain).collect()))])),
    ])
}

#[test]
fn title_from_properties_title() {
    let page = obj(vec![(
        "properties",
        obj(vec![("title", obj(vec![("title", arr(vec![plain("Roadmap"), plain("ignored")]))]))]),
    )]);
    assert_eq!(extract_title(&page), "Roadmap");
}

#[test]
fn title_from_properties_name() {
    let row = obj(vec![(
        "properties",
        obj(vec![
            ("Status", obj(vec![("select", obj(vec![("name", text("Done"))]))])),
            ("Name", obj(vec![("title", arr(vec![plain("Row one")]))])),
        ]),
    )]);
    assert_eq!(extract_title(&row), "Row one");
}

#[test]
fn title_from_top_level_array() {
    let database = obj(vec![("object", text("database")), ("title", arr(vec![plain("Tasks")]))]);
    assert_eq!(extract_title(&database), "Tasks");
}

#[test]
fn title_prefers_properties_over_top_level() {
    let both = obj(vec![
        ("title", arr(vec![plain("Top level")])),
        ("properties", obj(vec![("title", obj(vec![("title", arr(vec![plain("Inner")]))]))])),
    ]);
    assert_eq!(extract_title(&both), "Inner");
}

#[test]
fn title_falls_back_to_name_when_title_property_holds_none() {
    let empty_holder = obj(vec![(
        "properties",
        obj(vec![("title", obj(vec![])), ("Name", obj(vec![("title", arr(vec![plain("N")]))]))]),
    )]);
    assert_eq!(extract_title(&empty_holder), "N");
    let empty_array = obj(vec![
        (
            "properties",
            obj(vec![
                ("title", obj(vec![("title", arr(vec![]))])),
                ("Name", obj(vec![("title", arr(vec![plain("From name")]))])),
            ]),
        ),
        ("title", arr(vec![plain("Top level")])),
    ]);
    assert_eq!(extract_title(&empty_array), "From name");
}

#[test]
fn title_property_wins_over_name_when_both_hold_one() {
    let item = obj(vec![(
        "properties",
        obj(vec![
            ("Name", obj(vec![("title", arr(vec![plain("From name")]))])),
            ("title", obj(vec![("title", arr(vec![plain("From title")]))])),
        ]),
    )]);
    assert_eq!(extract_title(&item), "From title");
}

#[test]
fn title_falls_back_to_top_level_when_neither_property_holds_one() {
    let item = obj(vec![
        (
            "properties",
            obj(vec![("title", obj(vec![("title", arr(vec![]))])), ("Name", text("plain"))]),
        ),
        ("title", arr(vec![plain("Top level")])),
    ]);
    assert_eq!(extract_title(&item), "Top level");
}

#[test]
fn title_untitled_when_nothing_is_recognized() {
    assert_eq!(extract_title(&obj(vec![])), "(Untitled)");
    assert_eq!(extract_title(&Json::Null), "(Untitled)");
    assert_eq!(extract_title(&obj(vec![("title", text("not an array"))])), "(Untitled)");
    assert_eq!(extract_title(&obj(vec![("title", arr(vec![]))])), "(Untitled)");
    assert_eq!(
        extract_title(&obj(vec![("title", arr(vec![obj(vec![("plain_text", Json::Integer(3))])]))])),
        "(Untitled)"
    );
    assert_eq!(
        extract_title(&obj(vec![("properties", obj(vec![("Other", obj(vec![]))]))])),
        "(Untitled)"
    );
}

#[test]
fn rich_text_joins_the_plain_texts() {
    let b = block("paragraph", vec!["Hello, ", "world"]);
    assert_eq!(extract_rich_text(&b, "paragraph"), Some("Hello, world".to_string()));
}

#[test]
fn rich_text_skips_runs_without_plain_text() {
    let b = obj(vec![(
        "paragraph",
        obj(vec![(
            "rich_text",
            arr(vec![plain("a"), obj(vec![("href", text("x"))]), Json::Null, plain("b")]),
        )]),
    )]);
    assert_eq!(extract_rich_text(&b, "paragraph"), Some("ab".to_string()));
}

#[test]
fn rich_text_is_none_when_empty_or_missing() {
    assert_eq!(extract_rich_text(&block("paragraph", vec![]), "paragraph"), None);
    assert_eq!(extract_rich_text(&block("paragraph", vec![""]), "paragraph"), None);
    assert_eq!(extract_rich_text(&block("paragraph", vec!["x"]), "code"), None);
    assert_eq!(
        extract_rich_text(&obj(vec![("paragraph", obj(vec![("rich_text", text("x"))]))]), "paragraph"),
        None
    );
}

#[test]
fn property_rich_text() {
    let p = obj(vec![("rich_text", arr(vec![plain("some "), plain("notes")]))]);
    assert_eq!(extract_property_value(&p), Some("some notes".to_string()));
}

#[test]
fn property_select() {
    let p = obj(vec![("select", obj(vec![("name", text("Done"))]))]);
    assert_eq!(extract_property_value(&p), Some("Done".to_string()));
}

#[test]
fn property_multi_select_joins_with_comma_and_space() {
    let p = obj(vec![(
        "multi_select",
        arr(vec![
            obj(vec![("name", text("red"))]),
            obj(vec![("color", text("none"))]),
            obj(vec![("name", text("green"))]),
            obj(vec![("name", text("blue"))]),
        ]),
    )]);
    assert_eq!(extract_property_value(&p), Some("red, green, blue".to_string()));
    let one = obj(vec![("multi_select", arr(vec![obj(vec![("name", text("solo"))])]))]);
    assert_eq!(extract_property_value(&one), Some("solo".to_string()));
}

#[test]
fn property_number() {
    let p = obj(vec![("number", Json::Number("42.5".to_string()))]);
    assert_eq!(extract_property_value(&p), Some("42.5".to_string()));
    let q = obj(vec![("number", Json::Integer(7))]);
    assert_eq!(extract_property_value(&q), Some("7".to_string()));
}

#[test]
fn property_checkbox() {
    assert_eq!(
        extract_property_value(&obj(vec![("checkbox", Json::Bool(true))])),
        Some("✓".to_string())
    );
    assert_eq!(
        extract_property_value(&obj(vec![("checkbox", Json::Bool(false))])),
        Some("✗".to_string())
    );
}

#[test]
fn property_date_and_url() {
    let d = obj(vec![("date", obj(vec![("start", text("2025-01-31"))]))]);
    assert_eq!(extract_property_value(&d), Some("2025-01-31".to_string()));
    let u = obj(vec![("url", text("https://example.com"))]);
    assert_eq!(extract_property_value(&u), Some("https://example.com".to_string()));
}

#[test]
fn property_unrecognized_is_none() {
    assert_eq!(extract_property_value(&obj(vec![("people", arr(vec![]))])), None);
    assert_eq!(extract_property_value(&obj(vec![])), None);
    assert_eq!(extract_property_value(&Json::Null), None);
    assert_eq!(extract_property_value(&obj(vec![("number", Json::Null)])), None);
    assert_eq!(extract_property_value(&obj(vec![("select", Json::Null)])), None);
    assert_eq!(extract_property_value(&obj(vec![("url", Json::Null)])), None);
}

#[test]
fn property_first_match_wins() {
    let p = obj(vec![
        ("url", text("https://example.com")),
        ("checkbox", Json::Bool(true)),
        ("select", obj(vec![("name", text("Chosen"))])),
    ]);
    assert_eq!(extract_property_value(&p), Some("Chosen".to_string()));
}

#[test]
fn property_empty_rich_text_falls_through() {
    let p = obj(vec![("rich_text", arr(vec![])), ("checkbox", Json::Bool(false))]);
    assert_eq!(extract_property_value(&p), Some("✗".to_string()));
    let q = obj(vec![("multi_select", arr(vec![])), ("url", text("u"))]);
    assert_eq!(extract_property_value(&q), Some("u".to_string()));
}

#[test]
fn block_kinds_by_tag() {
    assert_eq!(block_kind("paragraph"), BlockKind::Paragraph);
    assert_eq!(block_kind("heading_1"), BlockKind::Heading1);
    assert_eq!(block_kind("heading_2"), BlockKind::Heading2);
    assert_eq!(block_kind("heading_3"), BlockKind::Heading3);
    assert_eq!(block_kind("bulleted_list_item"), BlockKind::BulletedListItem);
    assert_eq!(block_kind("numbered_list_item"), BlockKind::NumberedListItem);
    assert_eq!(block_kind("code"), BlockKind::Code);
    assert_eq!(block_kind("divider"), BlockKind::Divider);
    assert_eq!(block_kind("callout"), BlockKind::Unknown);
    assert_eq!(block_kind("unknown"), BlockKind::Unknown);
    assert_eq!(block_kind(""), BlockKind::Unknown);
    assert_eq!(block_kind("Paragraph"), BlockKind::Unknown);
}

#[test]
fn render_paragraph() {
    assert_eq!(
        render_block(&block("paragraph", vec!["Just text"])),
        Some(vec![span("Just text", Style::Plain)])
    );
}

#[test]
fn render_headings() {
    assert_eq!(
        render_block(&block("heading_1", vec!["One"])),
        Some(vec![span("\n", Style::Plain), span("# One", Style::Bold)])
    );
    assert_eq!(
        render_block(&block("heading_2", vec!["Two"])),
        Some(vec![span("\n", Style::Plain), span("## Two", Style::Bold)])
    );
    assert_eq!(
        render_block(&block("heading_3", vec!["Three"])),
        Some(vec![span("\n", Style::Plain), span("### Three", Style::Bold)])
    );
}

#[test]
fn render_list_items() {
    assert_eq!(
        render_block(&block("bulleted_list_item", vec!["milk"])),
        Some(vec![span("  • milk", Style::Plain)])
    );
    assert_eq!(
        render_block(&block("numbered_list_item", vec!["first"])),
        Some(vec![span("  1. first", Style::Plain)])
    );
}

#[test]
fn render_code() {
    assert_eq!(
        render_block(&block("code", vec!["fn main() {}"])),
        Some(vec![
            span("```\n", Style::Plain),
            span("fn main() {}", Style::Dimmed),
            span("\n```", Style::Plain),
        ])
    );
}

#[test]
fn render_divider_needs_no_text() {
    let d = obj(vec![("type", text("divider")), ("divider", obj(vec![]))]);
    assert_eq!(render_block(&d), Some(vec![span("---", Style::Dimmed)]));
    assert_eq!(
        render_block(&obj(vec![("type", text("divider"))])),
        Some(vec![span("---", Style::Dimmed)])
    );
}

#[test]
fn render_skips_unknown_and_empty_blocks() {
    assert_eq!(render_block(&block("callout", vec!["text"])), None);
    assert_eq!(render_block(&block("unknown", vec!["text"])), None);
    assert_eq!(render_block(&obj(vec![])), None);
    assert_eq!(render_block(&block("paragraph", vec![])), None);
    assert_eq!(render_block(&obj(vec![("type", text("heading_1"))])), None);
}
