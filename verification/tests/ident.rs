use notion_cli::error::Error;
use notion_cli::ident::normalize_page_id;

#[test]
fn test_normalize_page_id_with_dashes() {
    let result = normalize_page_id("2fb74f32-4ab9-80f5-83df-c93c885072e7").unwrap();
    assert_eq!(result, "2fb74f32-4ab9-80f5-83df-c93c885072e7");
}

#[test]
fn test_normalize_page_id_without_dashes() {
    let result = normalize_page_id("2fb74f324ab980f583dfc93c885072e7").unwrap();
    assert_eq!(result, "2fb74f32-4ab9-80f5-83df-c93c885072e7");
}

#[test]
fn test_normalize_page_id_invalid() {
    let result = normalize_page_id("invalid");
    assert!(result.is_err());
}

#[test]
fn invalid_identifier_reports_input_and_count() {
    // "invalid" holds the hexadecimal digits a and d.
    assert_eq!(
        normalize_page_id("invalid"),
        Err(Error::InvalidIdentifier { input: "invalid".to_string(), stripped_len: 2 })
    );
}

#[test]
fn normalizing_twice_changes_nothing() {
    for id in [
        "2fb74f324ab980f583dfc93c885072e7",
        "2FB74F32-4AB9-80F5-83DF-C93C885072E7",
        "https://www.notion.so/2fb74f324ab9 80f583dfc93c885072e7?v=1".trim_end_matches("?v=1"),
        "00000000000000000000000000000000",
        "{2fb74f32-4ab9-80f5-83df-c93c885072e7}",
    ] {
        let once = normalize_page_id(id).unwrap();
        assert_eq!(normalize_page_id(&once), Ok(once.clone()), "{:?}", id);
    }
}

#[test]
fn normalize_keeps_digits_and_their_case() {
    assert_eq!(
        normalize_page_id("ABCDEF0123456789abcdef0123456789"),
        Ok("ABCDEF01-2345-6789-abcd-ef0123456789".to_string())
    );
    assert_eq!(
        normalize_page_id("  zz 2fb74f32 / 4ab980f5 ~ 83dfc93c885072e7 !"),
        Ok("2fb74f32-4ab9-80f5-83df-c93c885072e7".to_string())
    );
}

#[test]
fn wrong_number_of_digits_is_rejected() {
    let thirty_one = "2fb74f324ab980f583dfc93c885072e";
    let thirty_three = "2fb74f324ab980f583dfc93c885072e70";
    let sixty_four = "2fb74f324ab980f583dfc93c885072e72fb74f324ab980f583dfc93c885072e7";
    for (id, count) in [(thirty_one, 31usize), (thirty_three, 33), (sixty_four, 64), ("", 0)] {
        assert_eq!(
            normalize_page_id(id),
            Err(Error::InvalidIdentifier { input: id.to_string(), stripped_len: count })
        );
    }
}

#[test]
fn letters_beyond_f_are_no_digits() {
    // Thirty-two characters, of which only thirty are hexadecimal digits.
    let id = "gfb74f324ab980f583dfc93c885072eg";
    assert_eq!(
        normalize_page_id(id),
        Err(Error::InvalidIdentifier { input: id.to_string(), stripped_len: 30 })
    );
}
