use pass_rs::config::{config_from_fields, load_config, parse_config, render_config, Config};
use pass_rs::error::StoreError;

fn config(store_path: &str, gpg_id: &str) -> Config {
    Config { store_path: store_path.to_string(), gpg_id: gpg_id.to_string() }
}

#[test]
fn parse_config_reads_both_entries() {
    let text = "store_path = \"/tmp/store\"\ngpg_id = \"9F8E7D6C5B4A3210\"\n";
    assert_eq!(parse_config(text), Ok(config("/tmp/store", "9F8E7D6C5B4A3210")));
}

#[test]
fn parse_config_does_not_mind_the_order() {
    let text = "gpg_id = 'ada'\nstore_path = '/tmp/store'\n";
    assert_eq!(parse_config(text), Ok(config("/tmp/store", "ada")));
}

#[test]
fn parse_config_ignores_other_entries() {
    let text = "editor = \"vi\"\nstore_path = \"/s\"\nwidth = 7\ngpg_id = \"k\"\n[extra]\nx = 1\n";
    assert_eq!(parse_config(text), Ok(config("/s", "k")));
}

#[test]
fn parse_config_refuses_what_is_no_document() {
    assert_eq!(parse_config("store_path = "), Err(StoreError::ConfigCorrupt));
    assert_eq!(parse_config("this is not toml"), Err(StoreError::ConfigCorrupt));
    assert_eq!(parse_config("a = 1\na = 2\n"), Err(StoreError::ConfigCorrupt));
}

#[test]
fn parse_config_refuses_a_document_that_lacks_an_entry() {
    assert_eq!(parse_config(""), Err(StoreError::ConfigCorrupt));
    assert_eq!(parse_config("store_path = \"/s\"\n"), Err(StoreError::ConfigCorrupt));
    assert_eq!(parse_config("gpg_id = \"k\"\n"), Err(StoreError::ConfigCorrupt));
}

#[test]
fn parse_config_refuses_entries_that_are_no_text() {
    assert_eq!(parse_config("store_path = 1\ngpg_id = \"k\"\n"), Err(StoreError::ConfigCorrupt));
    assert_eq!(
        parse_config("store_path = \"/s\"\ngpg_id = [\"k\"]\n"),
        Err(StoreError::ConfigCorrupt)
    );
    assert_eq!(
        parse_config("gpg_id = \"k\"\n[store_path]\nx = \"/s\"\n"),
        Err(StoreError::ConfigCorrupt)
    );
}

#[test]
fn config_from_fields_needs_both() {
    assert_eq!(
        config_from_fields(Some("/s".to_string()), Some("k".to_string())),
        Ok(config("/s", "k"))
    );
    assert_eq!(config_from_fields(None, Some("k".to_string())), Err(StoreError::ConfigCorrupt));
    assert_eq!(config_from_fields(Some("/s".to_string()), None), Err(StoreError::ConfigCorrupt));
    assert_eq!(config_from_fields(None, None), Err(StoreError::ConfigCorrupt));
}

#[test]
fn load_config_without_a_file_is_missing() {
    assert_eq!(load_config(None), Err(StoreError::ConfigMissing));
}

#[test]
fn load_config_reads_the_file() {
    let text = "store_path = \"/tmp/store\"\ngpg_id = \"ada\"\n".to_string();
    assert_eq!(load_config(Some(text)), Ok(config("/tmp/store", "ada")));
    assert_eq!(load_config(Some("][".to_string())), Err(StoreError::ConfigCorrupt));
    assert_eq!(load_config(Some(String::new())), Err(StoreError::ConfigCorrupt));
}

#[test]
fn render_config_writes_two_entries() {
    let text = render_config(&config("/tmp/store", "9F8E7D6C5B4A3210")).unwrap();
    assert_eq!(text, "gpg_id = \"9F8E7D6C5B4A3210\"\nstore_path = \"/tmp/store\"\n");
}

#[test]
fn render_config_does_not_hand_an_argument_back() {
    let text = render_config(&config("/tmp/store", "ada")).unwrap();
    assert_ne!(text, "/tmp/store");
    assert_ne!(text, "ada");
    assert!(text.contains("store_path"));
    assert!(text.contains("gpg_id"));
}

#[test]
fn what_is_rendered_reads_back_the_same() {
    let texts = [
        "",
        "/tmp/store",
        "~/.local/share/rs-passstore",
        "with space",
        "quote\"inside",
        "single'quote",
        "both ' and \"",
        "'''",
        "\"\"\"",
        "back\\slash",
        "C:\\Users\\ada",
        "line\nbreak",
        "\nleading break",
        "trailing break\n",
        "carriage\r\nreturn",
        "tab\there",
        "bell\u{7}",
        "null\u{0}",
        "delete\u{7f}",
        "ünïcödé",
        "鍵束",
        "emoji 🔑",
        "# not a comment",
        "a = \"b\"",
        "[table]",
        "9F8E7D6C5B4A3210",
    ];
    for store_path in texts {
        for gpg_id in texts {
            let written = config(store_path, gpg_id);
            let text = render_config(&written).unwrap();
            assert_eq!(parse_config(&text), Ok(written), "{text:?}");
        }
    }
}

#[test]
fn render_config_writes_no_other_entry() {
    let text = render_config(&config("/tmp/store", "ada")).unwrap();
    let lines: Vec<&str> = text.lines().collect();
    assert_eq!(lines, vec!["gpg_id = \"ada\"", "store_path = \"/tmp/store\""]);
}

#[test]
fn render_config_takes_the_longest_run_of_quotes_that_fits() {
    for quote in ["'", "\""] {
        let run = quote.repeat(255);
        for text in [run.clone(), format!("a{run}b"), format!("{run}x{run}")] {
            let written = config(&text, &text);
            let rendered = render_config(&written).unwrap();
            assert_eq!(parse_config(&rendered), Ok(written));
        }
    }
    let mixed = "'\"".repeat(300);
    let written = config(&mixed, "ada");
    let rendered = render_config(&written).unwrap();
    assert_eq!(parse_config(&rendered), Ok(written));
}

#[test]
fn render_config_refuses_a_longer_run_of_quotes() {
    for quote in ["'", "\""] {
        let run = quote.repeat(256);
        assert_eq!(render_config(&config(&run, "ada")), Err(StoreError::ConfigUnwritable));
        assert_eq!(render_config(&config("/tmp/store", &run)), Err(StoreError::ConfigUnwritable));
        let inside = format!("/tmp/{}store", quote.repeat(1000));
        assert_eq!(render_config(&config(&inside, "ada")), Err(StoreError::ConfigUnwritable));
        let at_the_end = format!("ada{run}");
        assert_eq!(
            render_config(&config("/tmp/store", &at_the_end)),
            Err(StoreError::ConfigUnwritable)
        );
    }
}
