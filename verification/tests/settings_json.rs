use pwsh_setup::infrastructure::terminal::settings_json::{
    find_member, printed_text, read_settings, set_defaults_font, set_profiles_font,
    single_member, updated_settings, with_terminal_font, write_settings, JsonValue,
    TerminalConfigError,
};
use pwsh_setup::infrastructure::terminal::windows_terminal_config::WindowsTerminalConfig;

fn text(value: &str) -> JsonValue {
    JsonValue::Text(value.to_string())
}

fn object(members: Vec<(&str, JsonValue)>) -> JsonValue {
    JsonValue::Object(members.into_iter().map(|(key, value)| (key.to_string(), value)).collect())
}

fn shown(value: &JsonValue) -> String {
    format!("{:?}", value)
}

fn face(font: &str) -> JsonValue {
    object(vec![("face", text(font))])
}

#[test]
fn font_replaces_existing_font_in_defaults() {
    let content = r#"{"profiles":{"defaults":{"font":{"face":"Consolas","size":12},"opacity":90},"list":[]},"theme":"dark"}"#;
    let expected = r#"{
  "profiles": {
    "defaults": {
      "font": {
        "face": "MesloLGM Nerd Font"
      },
      "opacity": 90
    },
    "list": []
  },
  "theme": "dark"
}"#;
    assert_eq!(updated_settings(content, "MesloLGM Nerd Font"), Ok(expected.to_string()));
}

#[test]
fn font_is_added_to_defaults_without_font() {
    let content = r#"{"profiles":{"defaults":{}}}"#;
    let expected = r#"{
  "profiles": {
    "defaults": {
      "font": {
        "face": "Hack"
      }
    }
  }
}"#;
    assert_eq!(updated_settings(content, "Hack"), Ok(expected.to_string()));
}

#[test]
fn defaults_are_created_where_missing() {
    let content = r#"{"profiles":{"list":[{"name":"pwsh"}]}}"#;
    let expected = r#"{
  "profiles": {
    "defaults": {
      "font": {
        "face": "Hack"
      }
    },
    "list": [
      {
        "name": "pwsh"
      }
    ]
  }
}"#;
    assert_eq!(updated_settings(content, "Hack"), Ok(expected.to_string()));
}

#[test]
fn settings_without_profiles_are_only_reprinted() {
    let content = r#"{"theme":"dark","copyOnSelect":true,"n":null}"#;
    let expected = "{\n  \"copyOnSelect\": true,\n  \"n\": null,\n  \"theme\": \"dark\"\n}";
    assert_eq!(updated_settings(content, "Hack"), Ok(expected.to_string()));
}

#[test]
fn profiles_that_are_no_object_stay() {
    assert_eq!(
        updated_settings(r#"{"profiles":[1,2]}"#, "Hack"),
        Ok("{\n  \"profiles\": [\n    1,\n    2\n  ]\n}".to_string())
    );
    assert_eq!(
        updated_settings(r#"{"profiles":"x"}"#, "Hack"),
        Ok("{\n  \"profiles\": \"x\"\n}".to_string())
    );
}

#[test]
fn defaults_that_are_no_object_stay() {
    assert_eq!(
        updated_settings(r#"{"profiles":{"defaults":7}}"#, "Hack"),
        Ok("{\n  \"profiles\": {\n    \"defaults\": 7\n  }\n}".to_string())
    );
}

#[test]
fn root_that_is_no_object_stays() {
    assert_eq!(updated_settings("[1, 2]", "Hack"), Ok("[\n  1,\n  2\n]".to_string()));
    assert_eq!(updated_settings("\"profiles\"", "Hack"), Ok("\"profiles\"".to_string()));
    assert_eq!(updated_settings("null", "Hack"), Ok("null".to_string()));
}

#[test]
fn invalid_settings_are_a_parse_error() {
    assert_eq!(updated_settings("{ not json", "Hack"), Err(TerminalConfigError::Parse));
    assert_eq!(updated_settings("", "Hack"), Err(TerminalConfigError::Parse));
    assert_eq!(
        updated_settings("// comment\n{\"profiles\":{}}", "Hack"),
        Err(TerminalConfigError::Parse)
    );
    let config = WindowsTerminalConfig::new();
    assert_eq!(config.configure_file("{", "Hack"), Err(TerminalConfigError::Parse));
}

#[test]
fn numbers_and_escapes_survive() {
    let content = r#"{"a":[1,-2,1.5,1e10,18446744073709551615],"s":"q\"\n\u00e9"}"#;
    let expected = "{\n  \"a\": [\n    1,\n    -2,\n    1.5,\n    10000000000.0,\n    18446744073709551615\n  ],\n  \"s\": \"q\\\"\\né\"\n}";
    assert_eq!(updated_settings(content, "Hack"), Ok(expected.to_string()));
}

#[test]
fn font_name_is_escaped_as_text() {
    let expected = "{\n  \"profiles\": {\n    \"defaults\": {\n      \"font\": {\n        \"face\": \"A \\\"B\\\"\"\n      }\n    }\n  }\n}";
    assert_eq!(updated_settings(r#"{"profiles":{}}"#, "A \"B\""), Ok(expected.to_string()));
}

#[test]
fn configure_file_is_the_settings_update() {
    let config = WindowsTerminalConfig::new();
    let content = r#"{"profiles":{"defaults":{}}}"#;
    assert_eq!(config.configure_file(content, "Hack"), updated_settings(content, "Hack"));
    assert_eq!(config.configure_result(1), Ok(()));
    assert_eq!(config.configure_result(3), Ok(()));
    assert_eq!(config.configure_result(0), Err(TerminalConfigError::NotFound));
}

#[test]
fn error_messages() {
    assert_eq!(TerminalConfigError::Read.message(), "Failed to read settings.json");
    assert_eq!(TerminalConfigError::Parse.message(), "Failed to parse settings.json");
    assert_eq!(TerminalConfigError::Serialize.message(), "Failed to serialize JSON");
    assert_eq!(TerminalConfigError::Write.message(), "Failed to write settings.json");
    assert_eq!(TerminalConfigError::NotFound.message(), "Windows Terminal settings.json not found");
}

#[test]
fn tree_update_on_hand_built_trees() {
    let settings = object(vec![
        ("theme", text("dark")),
        ("profiles", object(vec![("defaults", object(vec![("font", text("old")), ("x", JsonValue::Null)]))])),
    ]);
    let expected = object(vec![
        ("theme", text("dark")),
        ("profiles", object(vec![("defaults", object(vec![("font", face("Hack")), ("x", JsonValue::Null)]))])),
    ]);
    assert_eq!(shown(&with_terminal_font(settings, "Hack")), shown(&expected));

    let settings = object(vec![("profiles", object(vec![("list", JsonValue::Array(vec![]))]))]);
    let expected = object(vec![(
        "profiles",
        object(vec![
            ("list", JsonValue::Array(vec![])),
            ("defaults", object(vec![("font", face("Hack"))])),
        ]),
    )]);
    assert_eq!(shown(&with_terminal_font(settings, "Hack")), shown(&expected));

    assert_eq!(shown(&with_terminal_font(JsonValue::Bool(true), "Hack")), shown(&JsonValue::Bool(true)));
    assert_eq!(
        shown(&with_terminal_font(object(vec![("a", JsonValue::Null)]), "Hack")),
        shown(&object(vec![("a", JsonValue::Null)]))
    );
}

#[test]
fn later_member_counts_for_a_repeated_key() {
    let settings = object(vec![
        ("profiles", text("early")),
        ("profiles", object(vec![("defaults", text("early")), ("defaults", object(vec![]))])),
    ]);
    let expected = object(vec![
        ("profiles", text("early")),
        (
            "profiles",
            object(vec![("defaults", text("early")), ("defaults", object(vec![("font", face("F"))]))]),
        ),
    ]);
    assert_eq!(shown(&with_terminal_font(settings, "F")), shown(&expected));
    let members = vec![
        ("a".to_string(), JsonValue::Null),
        ("b".to_string(), JsonValue::Null),
        ("a".to_string(), JsonValue::Bool(true)),
    ];
    assert_eq!(find_member(&members, "a"), Some(2));
    assert_eq!(find_member(&members, "b"), Some(1));
    assert_eq!(find_member(&members, "c"), None);
    assert_eq!(find_member(&Vec::new(), "a"), None);
}

#[test]
fn defaults_and_profiles_helpers() {
    assert_eq!(shown(&set_defaults_font(object(vec![]), "F")), shown(&object(vec![("font", face("F"))])));
    assert_eq!(shown(&set_defaults_font(text("x"), "F")), shown(&text("x")));
    assert_eq!(
        shown(&set_profiles_font(object(vec![]), "F")),
        shown(&object(vec![("defaults", object(vec![("font", face("F"))]))]))
    );
    assert_eq!(shown(&set_profiles_font(JsonValue::Array(vec![]), "F")), shown(&JsonValue::Array(vec![])));
    assert_eq!(shown(&single_member("k", JsonValue::Null)), shown(&object(vec![("k", JsonValue::Null)])));
}

#[test]
fn reading_gives_the_tree_in_key_order() {
    let tree = read_settings(r#"{"b":[true,null,"t"],"a":{"n":-1.25}}"#).unwrap();
    let expected = object(vec![
        ("a", object(vec![("n", JsonValue::Number("-1.25".to_string()))])),
        ("b", JsonValue::Array(vec![JsonValue::Bool(true), JsonValue::Null, text("t")])),
    ]);
    assert_eq!(shown(&tree), shown(&expected));
    assert!(read_settings("{").is_none());
}

#[test]
fn writing_needs_well_written_numbers() {
    let good = object(vec![("n", JsonValue::Number("42".to_string()))]);
    assert_eq!(write_settings(&good), Some("{\n  \"n\": 42\n}".to_string()));
    let bad = object(vec![("n", JsonValue::Number("forty-two".to_string()))]);
    assert_eq!(write_settings(&bad), None);
    let nested = JsonValue::Array(vec![object(vec![("n", JsonValue::Number("".to_string()))])]);
    assert_eq!(write_settings(&nested), None);
    let repeated = object(vec![("k", text("first")), ("a", JsonValue::Null), ("k", text("second"))]);
    assert_eq!(write_settings(&repeated), Some("{\n  \"a\": null,\n  \"k\": \"second\"\n}".to_string()));
}

#[test]
fn printed_text_keeps_the_text_and_drops_the_error() {
    assert_eq!(printed_text(Ok("{}".to_string())), Some("{}".to_string()));
    assert_eq!(printed_text(Ok(String::new())), Some(String::new()));
    let error = serde_json::from_str::<serde_json::Value>("{").unwrap_err();
    assert_eq!(printed_text(Err(error)), None);
}

#[test]
fn written_settings_are_the_printed_tree() {
    let tree = read_settings(r#"{"b":1,"a":[]}"#).unwrap();
    assert_eq!(write_settings(&tree), Some("{\n  \"a\": [],\n  \"b\": 1\n}".to_string()));
    assert_eq!(write_settings(&JsonValue::Null), Some("null".to_string()));
    assert_eq!(write_settings(&JsonValue::Array(vec![])), Some("[]".to_string()));
}
