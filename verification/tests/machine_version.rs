//! Reading a string field out of `flutter --version --machine`.

use flt::json_string_field;

#[test]
fn the_flutter_root_is_read_from_the_machine_version() {
    let text = r#"{
  "frameworkVersion": "3.44.5",
  "flutterRoot": "C:\\hostedtoolcache\\flutter",
  "engineRevision": "83675ed27633283e7fc296c8bca22e841224c096"
}"#;
    assert_eq!(
        json_string_field(text, "flutterRoot").as_deref(),
        Some("C:\\hostedtoolcache\\flutter")
    );
    assert_eq!(json_string_field(text, "missing"), None);
}

#[test]
fn an_escaped_quote_does_not_end_the_value() {
    assert_eq!(
        json_string_field(r#"{"k": "a\"b\\c"}"#, "k").as_deref(),
        Some("a\"b\\c")
    );
}

#[test]
fn white_space_around_the_colon_is_skipped() {
    assert_eq!(
        json_string_field("{\"k\"\t\n :\u{3000} \"v\"}", "k").as_deref(),
        Some("v")
    );
    assert_eq!(json_string_field("\"k\":\"\"", "k").as_deref(), Some(""));
}

#[test]
fn a_field_without_a_colon_or_a_string_reads_as_none() {
    assert_eq!(json_string_field(r#"{"k" "v"}"#, "k"), None);
    assert_eq!(json_string_field(r#"{"k": 3}"#, "k"), None);
    assert_eq!(json_string_field(r#"{"k": "unterminated"#, "k"), None);
    assert_eq!(json_string_field(r#"{"k": "ends in \"#, "k"), None);
    assert_eq!(json_string_field("", "k"), None);
}

#[test]
fn only_the_first_occurrence_of_the_key_counts() {
    // The first "k" is a value, not a key: what follows it is not a colon.
    assert_eq!(json_string_field(r#"{"a": "k", "k": "v"}"#, "k"), None);
    assert_eq!(
        json_string_field(r#"{"k": "one", "k": "two"}"#, "k").as_deref(),
        Some("one")
    );
}

#[test]
fn a_value_written_with_escapes_reads_back() {
    for value in ["plain", "with \"quotes\"", "back\\slash", "", "ünïcødé ☃", "tab\tline\nbell\u{7}"] {
        let escaped: String = value
            .chars()
            .flat_map(|c| match c {
                '"' | '\\' => vec!['\\', c],
                '\n' => vec!['\\', 'n'],
                '\t' => vec!['\\', 't'],
                c if (c as u32) < 0x20 => format!("\\u{:04x}", c as u32).chars().collect(),
                c => vec![c],
            })
            .collect();
        let text = format!("{{\"other\": \"x\", \"key\" : \"{escaped}\", \"more\": 1}}");
        assert_eq!(json_string_field(&text, "key").as_deref(), Some(value), "{text}");
    }
}

#[test]
fn json_escapes_are_decoded() {
    assert_eq!(
        json_string_field(r#"{"k": "a\nb\u0041"}"#, "k").as_deref(),
        Some("a\nbA")
    );
    assert_eq!(
        json_string_field(r#"{"k": "\"\\\/\b\f\n\r\t"}"#, "k").as_deref(),
        Some("\"\\/\u{8}\u{c}\n\r\t")
    );
    assert_eq!(
        json_string_field(r#"{"k": "\u00e9\u00C9\u2603"}"#, "k").as_deref(),
        Some("éÉ☃")
    );
}

#[test]
fn a_surrogate_pair_is_one_character() {
    assert_eq!(
        json_string_field(r#"{"k": "x\ud83d\ude00y"}"#, "k").as_deref(),
        Some("x😀y")
    );
}

#[test]
fn a_backslash_before_no_escape_keeps_the_character() {
    assert_eq!(json_string_field(r#"{"k": "\x41"}"#, "k").as_deref(), Some("x41"));
    assert_eq!(json_string_field(r#"{"k": "\u12"}"#, "k").as_deref(), Some("u12"));
    assert_eq!(json_string_field(r#"{"k": "\u12g4"}"#, "k").as_deref(), Some("u12g4"));
    // A surrogate that is not part of a pair is no escape of a character.
    assert_eq!(json_string_field(r#"{"k": "\ud83d"}"#, "k").as_deref(), Some("ud83d"));
    assert_eq!(json_string_field(r#"{"k": "\ud83dx"}"#, "k").as_deref(), Some("ud83dx"));
    assert_eq!(
        json_string_field(r#"{"k": "\ud83d\u0041"}"#, "k").as_deref(),
        Some("ud83dA")
    );
    assert_eq!(json_string_field(r#"{"k": "\ude00"}"#, "k").as_deref(), Some("ude00"));
}

#[test]
fn a_control_character_stands_for_itself() {
    assert_eq!(json_string_field("{\"k\": \"a\nb\"}", "k").as_deref(), Some("a\nb"));
    assert_eq!(json_string_field("{\"k\": \"a\u{1}b\"}", "k").as_deref(), Some("a\u{1}b"));
}

#[test]
fn a_value_with_only_quotes_and_backslashes_escaped_reads_back() {
    for value in ["\u{1}", "a\"b\\c", "tab\there", "\\u0041", ""] {
        let escaped: String = value
            .chars()
            .flat_map(|c| if c == '"' || c == '\\' { vec!['\\', c] } else { vec![c] })
            .collect();
        let text = format!("{{ \"k\" : \"{escaped}\" }}");
        assert_eq!(json_string_field(&text, "k").as_deref(), Some(value), "{text}");
    }
}

#[test]
fn text_that_ends_inside_the_string_reads_as_none() {
    assert_eq!(json_string_field(r#"{"k": "ends with \"#, "k"), None);
    assert_eq!(json_string_field(r#"{"k": "ends with a quote\"#, "k"), None);
    assert_eq!(json_string_field(r#"{"k": "\u00"#, "k"), None);
}
