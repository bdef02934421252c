use notion_cli::client::{Method, NotionClient, Request};
use notion_cli::error::Error;
use notion_cli::json::Json;
use notion_cli::paginate::Fetch;
use notion_cli::payload::RichTextSegment;

const ID: &str = "2fb74f324ab980f583dfc93c885072e7";
const DASHED: &str = "2fb74f32-4ab9-80f5-83df-c93c885072e7";

fn text(s: &str) -> Json {
    Json::Text(s.to_string())
}

fn obj(members: Vec<(&str, Json)>) -> Json {
    Json::Object(members.into_iter().map(|(k, v)| (k.to_string(), v)).collect())
}

fn arr(items: Vec<Json>) -> Json {
    Json::Array(items)
}

fn run(content: &str) -> Json {
    obj(vec![("type", text("text")), ("text", obj(vec![("content", text(content))]))])
}

fn block(kind: &str, body: Json) -> Json {
    obj(vec![("object", text("block")), ("type", text(kind)), (kind, body)])
}

fn text_block(kind: &str, content: &str) -> Json {
    block(kind, obj(vec![("rich_text", arr(vec![run(content)]))]))
}

fn title_properties(title: &str) -> Json {
    obj(vec![(
        "title",
        obj(vec![("title", arr(vec![obj(vec![("text", obj(vec![("content", text(title))]))])]))]),
    )])
}

fn client() -> NotionClient {
    NotionClient::new("secret_key".to_string(), 30, "2025-09-03".to_string())
}

fn header(name: &str, value: &str) -> (String, String) {
    (name.to_string(), value.to_string())
}

fn bare_headers() -> Vec<(String, String)> {
    vec![header("Authorization", "Bearer secret_key"), header("Notion-Version", "2025-09-03")]
}

fn body_headers() -> Vec<(String, String)> {
    vec![
        header("Content-Type", "application/json"),
        header("Authorization", "Bearer secret_key"),
        header("Notion-Version", "2025-09-03"),
    ]
}

fn with_body(method: Method, url: &str, body: Json) -> Request {
    Request { method, url: url.to_string(), headers: body_headers(), body: Some(body) }
}

fn without_body(method: Method, url: &str) -> Request {
    Request { method, url: url.to_string(), headers: bare_headers(), body: None }
}

fn append(children: Vec<Json>) -> Request {
    with_body(
        Method::Patch,
        &format!("https://api.notion.com/v1/blocks/{}/children", DASHED),
        obj(vec![("children", arr(children))]),
    )
}

fn first_page(page_size: usize) -> Fetch {
    Fetch { cursor: None, page_size }
}

fn later_page(cursor: &str, page_size: usize) -> Fetch {
    Fetch { cursor: Some(cursor.to_string()), page_size }
}

fn invalid(input: &str, stripped_len: usize) -> Error {
    Error::InvalidIdentifier { input: input.to_string(), stripped_len }
}

#[test]
fn client_keeps_its_timeout() {
    assert_eq!(client().timeout_secs(), 30);
}

#[test]
fn headers_carry_key_and_version() {
    assert_eq!(client().headers(false), bare_headers());
    assert_eq!(client().headers(true), body_headers());
}

#[test]
fn get_page_request() {
    assert_eq!(
        client().get_page(ID),
        Ok(without_body(Method::Get, &format!("https://api.notion.com/v1/pages/{}", DASHED)))
    );
    assert_eq!(client().get_page(DASHED), client().get_page(ID));
}

#[test]
fn every_operation_rejects_a_bad_identifier() {
    let c = client();
    let bad = "abc";
    let e = || Err(invalid("abc", 3));
    let fetch = first_page(10);
    assert_eq!(c.get_page(bad), e());
    assert_eq!(c.get_blocks(bad, &fetch), e());
    assert_eq!(c.create_page(bad, "t", None), e());
    assert_eq!(c.append_blocks(bad, "x"), e());
    assert_eq!(c.append_code_block(bad, "x", "rust"), e());
    assert_eq!(c.append_bookmark(bad, "u", None), e());
    assert_eq!(c.append_heading(bad, "x", 1), e());
    assert_eq!(c.append_heading(bad, "x", 9), e());
    assert_eq!(c.append_divider(bad), e());
    assert_eq!(c.append_bulleted_list(bad, &vec![]), e());
    assert_eq!(c.append_rich_text(bad, &vec![]), e());
    assert_eq!(c.update_page(bad, Some("t"), None), e());
    assert_eq!(c.delete_page(bad), e());
    assert_eq!(c.delete_block(bad), e());
    assert_eq!(c.query_database(bad, None, None, "desc", &fetch), e());
    assert_eq!(c.move_page(bad, &Json::Null, &vec![]), e());
}

#[test]
fn identifier_with_too_many_digits_is_rejected() {
    let long = "2fb74f324ab980f583dfc93c885072e7ab";
    assert_eq!(client().get_page(long), Err(invalid(long, 34)));
}

#[test]
fn get_blocks_first_and_later_page() {
    let url = format!("https://api.notion.com/v1/blocks/{}/children", DASHED);
    assert_eq!(client().get_blocks(ID, &first_page(100)), Ok(without_body(Method::Get, &url)));
    assert_eq!(
        client().get_blocks(ID, &later_page("cur-1", 100)),
        Ok(without_body(Method::Get, &format!("{}?start_cursor=cur-1", url)))
    );
}

#[test]
fn search_first_and_later_page() {
    assert_eq!(
        client().search("roadmap", &first_page(25)),
        with_body(
            Method::Post,
            "https://api.notion.com/v1/search",
            obj(vec![("query", text("roadmap")), ("page_size", Json::Integer(25))]),
        )
    );
    assert_eq!(
        client().search("roadmap", &later_page("abc", 100)),
        with_body(
            Method::Post,
            "https://api.notion.com/v1/search",
            obj(vec![
                ("query", text("roadmap")),
                ("page_size", Json::Integer(100)),
                ("start_cursor", text("abc")),
            ]),
        )
    );
}

#[test]
fn create_page_with_and_without_content() {
    assert_eq!(
        client().create_page(ID, "Notes", Some("First line")),
        Ok(with_body(
            Method::Post,
            "https://api.notion.com/v1/pages",
            obj(vec![
                ("parent", obj(vec![("page_id", text(DASHED))])),
                ("properties", title_properties("Notes")),
                ("children", arr(vec![text_block("paragraph", "First line")])),
            ]),
        ))
    );
    assert_eq!(
        client().create_page(ID, "Notes", None),
        Ok(with_body(
            Method::Post,
            "https://api.notion.com/v1/pages",
            obj(vec![
                ("parent", obj(vec![("page_id", text(DASHED))])),
                ("properties", title_properties("Notes")),
                ("children", arr(vec![])),
            ]),
        ))
    );
}

#[test]
fn append_paragraph() {
    assert_eq!(
        client().append_blocks(ID, "Hello"),
        Ok(append(vec![text_block("paragraph", "Hello")]))
    );
}

#[test]
fn append_code() {
    assert_eq!(
        client().append_code_block(ID, "let x = 1;", "rust"),
        Ok(append(vec![block(
            "code",
            obj(vec![("rich_text", arr(vec![run("let x = 1;")])), ("language", text("rust"))]),
        )]))
    );
}

#[test]
fn append_bookmark_with_and_without_caption() {
    assert_eq!(
        client().append_bookmark(ID, "https://example.com", Some("An example")),
        Ok(append(vec![block(
            "bookmark",
            obj(vec![("url", text("https://example.com")), ("caption", arr(vec![run("An example")]))]),
        )]))
    );
    assert_eq!(
        client().append_bookmark(ID, "https://example.com", None),
        Ok(append(vec![block(
            "bookmark",
            obj(vec![("url", text("https://example.com")), ("caption", arr(vec![]))]),
        )]))
    );
}

#[test]
fn append_heading_levels() {
    assert_eq!(client().append_heading(ID, "T", 1), Ok(append(vec![text_block("heading_1", "T")])));
    assert_eq!(client().append_heading(ID, "T", 2), Ok(append(vec![text_block("heading_2", "T")])));
    assert_eq!(client().append_heading(ID, "T", 3), Ok(append(vec![text_block("heading_3", "T")])));
}

#[test]
fn append_heading_rejects_other_levels() {
    for level in [0u8, 4, 5, 255] {
        assert_eq!(client().append_heading(ID, "T", level), Err(Error::InvalidHeadingLevel { level }));
    }
}

#[test]
fn append_divider_block() {
    assert_eq!(client().append_divider(ID), Ok(append(vec![block("divider", obj(vec![]))])));
}

#[test]
fn append_list_one_block_per_item() {
    let items = vec!["milk".to_string(), "eggs".to_string(), "".to_string()];
    assert_eq!(
        client().append_bulleted_list(ID, &items),
        Ok(append(vec![
            text_block("bulleted_list_item", "milk"),
            text_block("bulleted_list_item", "eggs"),
            text_block("bulleted_list_item", ""),
        ]))
    );
    assert_eq!(client().append_bulleted_list(ID, &vec![]), Ok(append(vec![])));
}

#[test]
fn append_rich_text_mixes_plain_and_link() {
    let segments = vec![
        RichTextSegment::plain("See "),
        RichTextSegment::link("the docs", "https://example.com/docs"),
        RichTextSegment::plain("."),
    ];
    assert_eq!(
        client().append_rich_text(ID, &segments),
        Ok(append(vec![block(
            "paragraph",
            obj(vec![(
                "rich_text",
                arr(vec![
                    run("See "),
                    obj(vec![
                        ("type", text("text")),
                        (
                            "text",
                            obj(vec![
                                ("content", text("the docs")),
                                ("link", obj(vec![("url", text("https://example.com/docs"))])),
                            ]),
                        ),
                    ]),
                    run("."),
                ]),
            )]),
        )]))
    );
}

#[test]
fn rich_text_segment_constructors() {
    assert_eq!(RichTextSegment::plain("a"), RichTextSegment::Plain("a".to_string()));
    assert_eq!(
        RichTextSegment::link("a", "u"),
        RichTextSegment::Link { text: "a".to_string(), url: "u".to_string() }
    );
}

#[test]
fn update_page_names_only_what_is_given() {
    let url = format!("https://api.notion.com/v1/pages/{}", DASHED);
    let icon = obj(vec![("type", text("emoji")), ("emoji", text("🚀"))]);
    assert_eq!(
        client().update_page(ID, Some("New"), Some("🚀")),
        Ok(with_body(
            Method::Patch,
            &url,
            obj(vec![("properties", title_properties("New")), ("icon", icon)]),
        ))
    );
    assert_eq!(
        client().update_page(ID, Some("New"), None),
        Ok(with_body(Method::Patch, &url, obj(vec![("properties", title_properties("New"))])))
    );
    assert_eq!(
        client().update_page(ID, None, Some("🚀")),
        Ok(with_body(
            Method::Patch,
            &url,
            obj(vec![("icon", obj(vec![("type", text("emoji")), ("emoji", text("🚀"))]))]),
        ))
    );
    assert_eq!(
        client().update_page(ID, None, None),
        Ok(with_body(Method::Patch, &url, obj(vec![])))
    );
}

#[test]
fn delete_page_archives() {
    assert_eq!(
        client().delete_page(ID),
        Ok(with_body(
            Method::Patch,
            &format!("https://api.notion.com/v1/pages/{}", DASHED),
            obj(vec![("archived", Json::Bool(true))]),
        ))
    );
}

#[test]
fn delete_block_request() {
    assert_eq!(
        client().delete_block(ID),
        Ok(without_body(Method::Delete, &format!("https://api.notion.com/v1/blocks/{}", DASHED)))
    );
}

#[test]
fn query_database_plain() {
    assert_eq!(
        client().query_database(ID, None, None, "desc", &first_page(100)),
        Ok(with_body(
            Method::Post,
            &format!("https://api.notion.com/v1/databases/{}/query", DASHED),
            obj(vec![("page_size", Json::Integer(100))]),
        ))
    );
}

#[test]
fn query_database_with_cursor_filter_and_sort() {
    assert_eq!(
        client().query_database(
            ID,
            Some("Done:checkbox=TRUE"),
            Some("Created"),
            "asc",
            &later_page("c9", 40)
        ),
        Ok(with_body(
            Method::Post,
            &format!("https://api.notion.com/v1/databases/{}/query", DASHED),
            obj(vec![
                ("page_size", Json::Integer(40)),
                ("start_cursor", text("c9")),
                (
                    "filter",
                    obj(vec![
                        ("property", text("Done")),
                        ("checkbox", obj(vec![("equals", Json::Bool(true))])),
                    ]),
                ),
                (
                    "sorts",
                    arr(vec![obj(vec![
                        ("property", text("Created")),
                        ("direction", text("ascending")),
                    ])]),
                ),
            ]),
        ))
    );
}

#[test]
fn query_database_ignores_a_filter_without_equals() {
    assert_eq!(
        client().query_database(ID, Some("Status"), Some("Name"), "down", &first_page(5)),
        Ok(with_body(
            Method::Post,
            &format!("https://api.notion.com/v1/databases/{}/query", DASHED),
            obj(vec![
                ("page_size", Json::Integer(5)),
                (
                    "sorts",
                    arr(vec![obj(vec![("property", text("Name")), ("direction", text("descending"))])]),
                ),
            ]),
        ))
    );
}

#[test]
fn move_page_copies_title_and_blocks() {
    let page = obj(vec![
        ("id", text("source")),
        (
            "properties",
            obj(vec![(
                "title",
                obj(vec![("title", arr(vec![obj(vec![("plain_text", text("Old home"))])]))]),
            )]),
        ),
    ]);
    let paragraph_body = obj(vec![("rich_text", arr(vec![obj(vec![("plain_text", text("p"))])]))]);
    let blocks = vec![
        obj(vec![
            ("id", text("b1")),
            ("object", text("block")),
            ("type", text("paragraph")),
            ("has_children", Json::Bool(false)),
            ("paragraph", paragraph_body.clone()),
        ]),
        obj(vec![("id", text("b2")), ("type", text("orphan"))]),
        obj(vec![("id", text("b3"))]),
        obj(vec![("type", text("divider")), ("divider", obj(vec![]))]),
    ];
    assert_eq!(
        client().move_page(ID, &page, &blocks),
        Ok(with_body(
            Method::Post,
            "https://api.notion.com/v1/pages",
            obj(vec![
                ("parent", obj(vec![("page_id", text(DASHED))])),
                ("properties", title_properties("Old home")),
                (
                    "children",
                    arr(vec![block("paragraph", paragraph_body), block("divider", obj(vec![]))]),
                ),
            ]),
        ))
    );
}

#[test]
fn move_page_of_an_untitled_page() {
    assert_eq!(
        client().move_page(ID, &Json::Null, &vec![]),
        Ok(with_body(
            Method::Post,
            "https://api.notion.com/v1/pages",
            obj(vec![
                ("parent", obj(vec![("page_id", text(DASHED))])),
                ("properties", title_properties("(Untitled)")),
                ("children", arr(vec![])),
            ]),
        ))
    );
}
