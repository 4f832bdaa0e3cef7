use pass_rs::keys::{
    choose_key_id, find_listed_key, list_keys_args, resolve_key_id, resolve_key_id_from,
    KEY_GROUP, KEY_PATTERN,
};

fn listing() -> String {
    let lines = [
        "sec   rsa4096/1A2B3C4D5E6F7A8B 2021-03-04 [SC]",
        "      0123456789ABCDEF0123456789ABCDEF01234567",
        "uid                 [ultimate] Ada Lovelace <ada@example.org>",
        "ssb   rsa4096/9F8E7D6C5B4A3210 2021-03-04 [E]",
        "",
    ];
    lines.join("\n")
}

#[test]
fn the_pattern_names_its_group() {
    assert_eq!(KEY_PATTERN, r".*\/(?<id>[A-Z0-9]+)[0-9- ]{12}\[E\]");
    assert_eq!(KEY_GROUP, "id");
}

#[test]
fn find_listed_key_picks_the_encryption_subkey() {
    assert_eq!(find_listed_key(&listing()), Some("9F8E7D6C5B4A3210".to_string()));
}

#[test]
fn find_listed_key_finds_nothing_without_an_encryption_subkey() {
    assert_eq!(find_listed_key(""), None);
    assert_eq!(find_listed_key("sec   rsa4096/1A2B3C4D5E6F7A8B 2021-03-04 [SC]\n"), None);
    assert_eq!(find_listed_key("gpg: error reading key: No secret key\n"), None);
}

#[test]
fn find_listed_key_takes_the_first_of_several() {
    let text = "ssb   rsa2048/AAAA000011112222 2019-01-01 [E]\nssb   rsa2048/BBBB000011112222 2020-01-01 [E]\n";
    assert_eq!(find_listed_key(text), Some("AAAA000011112222".to_string()));
}

#[test]
fn find_listed_key_does_not_hand_the_listing_back() {
    let text = "ssb   cv25519/0011223344556677 2022-12-31 [E]";
    let found = find_listed_key(text).unwrap();
    assert_ne!(found, text);
    assert_eq!(found, "0011223344556677");
}

#[test]
fn choose_key_id_prefers_the_key_ring() {
    assert_eq!(choose_key_id("ada", Some("9F8E7D6C5B4A3210".to_string())), "9F8E7D6C5B4A3210");
}

#[test]
fn choose_key_id_falls_back_to_what_was_given() {
    assert_eq!(choose_key_id("ada", None), "ada");
    assert_eq!(choose_key_id("", None), "");
}

#[test]
fn resolve_key_id_records_the_long_identifier() {
    assert_eq!(resolve_key_id("ada@example.org", &listing()), "9F8E7D6C5B4A3210");
}

#[test]
fn resolve_key_id_never_fails() {
    assert_eq!(resolve_key_id("ada@example.org", ""), "ada@example.org");
    assert_eq!(resolve_key_id("ada@example.org", "no keys here"), "ada@example.org");
}

#[test]
fn list_keys_args_asks_for_long_identifiers() {
    assert_eq!(
        list_keys_args("ada@example.org"),
        vec!["--list-secret-keys", "--keyid-format", "LONG", "ada@example.org"]
    );
}

#[test]
fn resolve_key_id_from_a_listing_records_the_long_identifier() {
    let text = listing();
    assert_eq!(resolve_key_id_from("ada@example.org", Some(&text)), "9F8E7D6C5B4A3210");
    assert_eq!(resolve_key_id_from("ada@example.org", Some("")), "ada@example.org");
}

#[test]
fn resolve_key_id_without_a_listing_keeps_what_was_given() {
    assert_eq!(resolve_key_id_from("ada@example.org", None), "ada@example.org");
    assert_eq!(resolve_key_id_from("", None), "");
}
