use notion_cli::cli::{Cli, Commands};
use notion_cli::commands::{
    block_id_line, check_update, icon_emoji, id_line, is_archived, item_id, link_segments,
    list_items, new_id, object_type, page_url, property_line, query_entry, search_entry,
    shown_properties,
};
use notion_cli::config::{
    get_api_key, get_api_version, shown_config_path, Config, DEFAULT_API_VERSION,
    DEFAULT_CONFIG_PATH, DEFAULT_RETRY_DELAY_SECS, DEFAULT_TIMEOUT_SECS, MAX_RETRIES,
    NOTION_API_BASE,
};
use notion_cli::error::Error;
use notion_cli::json::Json;
use notion_cli::output::{line1, line2, line3, Span, Style};
use notion_cli::payload::RichTextSegment;

fn text(s: &str) -> Json {
    Json::Text(s.to_string())
}

fn obj(members: Vec<(&str, Json)>) -> Json {
    Json::Object(members.into_iter().map(|(k, v)| (k.to_string(), v)).collect())
}

fn arr(items: Vec<Json>) -> Json {
    Json::Array(items)
}

fn span(s: &str, style: Style) -> Span {
    Span { text: s.to_string(), style }
}

fn select(name: &str) -> Json {
    obj(vec![("select", obj(vec![("name", text(name))]))])
}

fn titled(title: &str) -> Json {
    obj(vec![("title", arr(vec![obj(vec![("plain_text", text(title))])]))])
}

fn pair(a: &str, b: &str) -> (String, String) {
    (a.to_string(), b.to_string())
}

#[test]
fn ids_and_types_with_fallbacks() {
    let item = obj(vec![("object", text("page")), ("id", text("abc-123"))]);
    assert_eq!(item_id(&item), "abc-123");
    assert_eq!(new_id(&item), "abc-123");
    assert_eq!(object_type(&item), "page");
    let empty = obj(vec![]);
    assert_eq!(item_id(&empty), "no-id");
    assert_eq!(new_id(&empty), "unknown");
    assert_eq!(object_type(&empty), "unknown");
    assert_eq!(item_id(&obj(vec![("id", Json::Integer(5))])), "no-id");
}

#[test]
fn url_icon_and_archived() {
    let page = obj(vec![
        ("url", text("https://notion.so/p")),
        ("icon", obj(vec![("type", text("emoji")), ("emoji", text("📌"))])),
        ("archived", Json::Bool(true)),
    ]);
    assert_eq!(page_url(&page), Some("https://notion.so/p".to_string()));
    assert_eq!(icon_emoji(&page), Some("📌".to_string()));
    assert!(is_archived(&page));
    let bare = obj(vec![("icon", Json::Null), ("archived", text("yes"))]);
    assert_eq!(page_url(&bare), None);
    assert_eq!(icon_emoji(&bare), None);
    assert!(!is_archived(&bare));
    assert!(!is_archived(&obj(vec![("archived", Json::Bool(false))])));
}

#[test]
fn update_needs_title_or_icon() {
    assert_eq!(check_update(None, None), Err(Error::ValidationError));
    assert_eq!(check_update(Some("t"), None), Ok(()));
    assert_eq!(check_update(None, Some("🚀")), Ok(()));
    assert_eq!(check_update(Some("t"), Some("🚀")), Ok(()));
}

#[test]
fn list_items_are_split_and_trimmed() {
    assert_eq!(list_items("a, b ,c"), vec!["a", "b", "c"]);
    assert_eq!(list_items("single"), vec!["single"]);
    assert_eq!(list_items("a,,b,"), vec!["a", "", "b", ""]);
}

#[test]
fn link_segments_in_order() {
    assert_eq!(
        link_segments(Some("See "), "docs", "https://d", Some(" now")),
        vec![
            RichTextSegment::Plain("See ".to_string()),
            RichTextSegment::Link { text: "docs".to_string(), url: "https://d".to_string() },
            RichTextSegment::Plain(" now".to_string()),
        ]
    );
    assert_eq!(
        link_segments(None, "docs", "https://d", None),
        vec![RichTextSegment::Link { text: "docs".to_string(), url: "https://d".to_string() }]
    );
    assert_eq!(
        link_segments(None, "docs", "https://d", Some("!")),
        vec![
            RichTextSegment::Link { text: "docs".to_string(), url: "https://d".to_string() },
            RichTextSegment::Plain("!".to_string()),
        ]
    );
}

#[test]
fn shown_properties_skip_titles_and_look_at_three() {
    let row = obj(vec![(
        "properties",
        obj(vec![
            ("Name", titled("Row")),
            ("Stage", select("Review")),
            ("People", obj(vec![("people", arr(vec![]))])),
            ("Late", select("beyond the first three")),
        ]),
    )]);
    assert_eq!(shown_properties(&row), vec![pair("Stage", "Review")]);
}

#[test]
fn shown_properties_of_up_to_three() {
    let row = obj(vec![(
        "properties",
        obj(vec![
            ("A", select("1")),
            ("B", obj(vec![("checkbox", Json::Bool(true))])),
            ("C", obj(vec![("url", text("u"))])),
        ]),
    )]);
    assert_eq!(shown_properties(&row), vec![pair("A", "1"), pair("B", "✓"), pair("C", "u")]);
    let two = obj(vec![("properties", obj(vec![("title", titled("T")), ("B", select("x"))]))]);
    assert_eq!(shown_properties(&two), vec![pair("B", "x")]);
}

#[test]
fn shown_properties_without_an_object() {
    assert_eq!(shown_properties(&obj(vec![])), Vec::<(String, String)>::new());
    assert_eq!(shown_properties(&obj(vec![("properties", arr(vec![]))])), Vec::<(String, String)>::new());
    assert_eq!(shown_properties(&obj(vec![("properties", obj(vec![]))])), Vec::<(String, String)>::new());
}

#[test]
fn listing_lines() {
    let item = obj(vec![("object", text("database")), ("id", text("db-1")), ("title", match titled("Tasks") {
        Json::Object(m) => m.into_iter().next().unwrap().1,
        _ => unreachable!(),
    })]);
    assert_eq!(
        search_entry(&item),
        vec![span("  ", Style::Plain), span("•", Style::Cyan), span(" [database] Tasks", Style::Plain)]
    );
    assert_eq!(
        query_entry(&item),
        vec![span("  ", Style::Plain), span("•", Style::Cyan), span(" Tasks", Style::Plain)]
    );
    assert_eq!(id_line(&item), vec![span("    ID: ", Style::Plain), span("db-1", Style::Dimmed)]);
    assert_eq!(
        property_line("Stage", "Review"),
        vec![span("    ", Style::Plain), span("Stage", Style::Dimmed), span(": Review", Style::Plain)]
    );
}

#[test]
fn block_id_lines() {
    let b = obj(vec![("id", text("b-7")), ("type", text("paragraph"))]);
    assert_eq!(block_id_line(&b), vec![span("b-7  [paragraph]", Style::Plain)]);
    assert_eq!(block_id_line(&obj(vec![])), vec![span("no-id  [unknown]", Style::Plain)]);
}

#[test]
fn lines_keep_their_spans() {
    let a = || Span::plain("a");
    let b = || Span::styled("b", Style::Bold);
    let c = || Span::new("c".to_string(), Style::Red);
    assert_eq!(line1(a()), vec![a()]);
    assert_eq!(line2(a(), b()), vec![a(), b()]);
    assert_eq!(line3(a(), b(), c()), vec![a(), b(), c()]);
    assert_eq!(a(), span("a", Style::Plain));
    assert_eq!(c(), span("c", Style::Red));
}

#[test]
fn api_key_first_source_wins() {
    let file = Config { api_key: Some("from-file".to_string()), timeout: None };
    let none = Config::default();
    let path = "/home/u/.config/notion-cli/config.toml";
    assert_eq!(
        get_api_key(Some("cli"), Some("env"), &file, Some("dotenv"), path),
        Ok("cli".to_string())
    );
    assert_eq!(get_api_key(None, Some("env"), &file, Some("dotenv"), path), Ok("env".to_string()));
    assert_eq!(get_api_key(None, None, &file, Some("dotenv"), path), Ok("from-file".to_string()));
    assert_eq!(get_api_key(None, None, &none, Some("dotenv"), path), Ok("dotenv".to_string()));
    assert_eq!(get_api_key(Some(""), Some("env"), &file, None, path), Ok("".to_string()));
}

#[test]
fn api_key_missing_when_no_source_holds_one() {
    let path = "/home/u/.config/notion-cli/config.toml";
    assert_eq!(
        get_api_key(None, None, &Config::default(), None, path),
        Err(Error::MissingCredential { config_path: path.to_string() })
    );
    let timeout_only = Config { api_key: None, timeout: Some(45) };
    assert_eq!(
        get_api_key(None, None, &timeout_only, None, path),
        Err(Error::MissingCredential { config_path: path.to_string() })
    );
}

#[test]
fn missing_key_message_names_the_ways_to_set_it() {
    let e = get_api_key(None, None, &Config::default(), None, "/etc/notion/config.toml")
        .unwrap_err();
    assert_eq!(
        e.message(),
        "Notion API key not found.\n\n\
         Set it using one of these methods:\n\
         1. Run: notion-cli init\n\
         2. Set env: export NOTION_API_KEY=secret_xxx\n\
         3. Add to /etc/notion/config.toml: api_key = \"secret_xxx\"\n\
         4. Use --api-key option"
    );
}

#[test]
fn shown_config_path_falls_back_to_the_usual_place() {
    assert_eq!(shown_config_path(Some("/x/config.toml")), "/x/config.toml");
    assert_eq!(shown_config_path(None), "~/.config/notion-cli/config.toml");
    assert_eq!(DEFAULT_CONFIG_PATH, "~/.config/notion-cli/config.toml");
}

#[test]
fn config_default_is_empty() {
    assert_eq!(Config::default(), Config { api_key: None, timeout: None });
}

#[test]
fn api_version_default_and_override() {
    assert_eq!(get_api_version(None), "2025-09-03");
    assert_eq!(get_api_version(Some("2022-06-28")), "2022-06-28");
    assert_eq!(DEFAULT_API_VERSION, "2025-09-03");
}

#[test]
fn constants() {
    assert_eq!(NOTION_API_BASE, "https://api.notion.com/v1");
    assert_eq!(DEFAULT_TIMEOUT_SECS, 30);
    assert_eq!(MAX_RETRIES, 3);
    assert_eq!(DEFAULT_RETRY_DELAY_SECS, 1);
}

#[test]
fn error_messages() {
    assert_eq!(
        Error::InvalidIdentifier { input: "invalid".to_string(), stripped_len: 2 }.message(),
        "Invalid page ID 'invalid': expected 32 hex characters, got 2"
    );
    assert_eq!(
        Error::ApiError { status: 404, body: "{\"message\":\"gone\"}".to_string() }.message(),
        "Notion API returned an error: status 404: {\"message\":\"gone\"}"
    );
    assert_eq!(Error::RateLimitExhausted.message(), "Rate limit exceeded after 3 retries");
    assert!(Error::MissingCredential { config_path: "p".to_string() }
        .message()
        .starts_with("Notion API key not found.\n\nSet it using one of these methods:\n"));
    assert_eq!(
        Error::InvalidHeadingLevel { level: 7 }.message(),
        "Invalid heading level 7: expected 1, 2 or 3"
    );
    assert_eq!(
        Error::ValidationError.message(),
        "At least one of --title or --icon must be specified"
    );
}

#[test]
fn cli_holds_command_and_timeout() {
    let cli = Cli {
        command: Commands::Search { query: "q".to_string(), limit: 100 },
        timeout: DEFAULT_TIMEOUT_SECS,
    };
    assert_eq!(cli.timeout, 30);
    assert_eq!(cli.command, Commands::Search { query: "q".to_string(), limit: 100 });
    assert_ne!(cli.command, Commands::Read { page_id: "q".to_string() });
}
