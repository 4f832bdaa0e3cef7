use pass_rs::error::StoreError;
use pass_rs::secret::{
    confirm_entry, confirmation_prompt, decrypt_args, deliver, encrypt_args, entry_prompt,
    tool_outcome, Decryption, Delivery, ENCRYPTION_TOOL,
};

#[test]
fn the_encryption_tool_is_gpg() {
    assert_eq!(ENCRYPTION_TOOL, "gpg");
}

#[test]
fn confirm_entry_strips_the_line_terminator() {
    assert_eq!(confirm_entry("hunter2\n", "hunter2\n"), Ok("hunter2".to_string()));
}

#[test]
fn confirm_entry_refuses_lines_that_differ() {
    assert_eq!(confirm_entry("hunter2\n", "hunter3\n"), Err(StoreError::ConfirmationMismatch));
    assert_eq!(confirm_entry("hunter2\n", "hunter2"), Err(StoreError::ConfirmationMismatch));
    assert_eq!(confirm_entry("", "\n"), Err(StoreError::ConfirmationMismatch));
}

#[test]
fn confirm_entry_of_two_empty_lines_is_the_empty_secret() {
    assert_eq!(confirm_entry("\n", "\n"), Ok(String::new()));
    assert_eq!(confirm_entry("", ""), Ok(String::new()));
}

#[test]
fn confirm_entry_takes_away_one_line_feed_and_nothing_else() {
    assert_eq!(confirm_entry("abc", "abc"), Ok("abc".to_string()));
    assert_eq!(confirm_entry("pass\n\n", "pass\n\n"), Ok("pass\n".to_string()));
    assert_eq!(confirm_entry("schlüssel\n", "schlüssel\n"), Ok("schlüssel".to_string()));
    assert_eq!(confirm_entry("鍵", "鍵"), Ok("鍵".to_string()));
    assert_eq!(confirm_entry("abc\r\n", "abc\r\n"), Ok("abc\r".to_string()));
    assert_eq!(confirm_entry("abc\r", "abc\r"), Ok("abc\r".to_string()));
}

#[test]
fn a_last_line_without_a_line_feed_gives_itself() {
    for text in ["hunter2", "a", "with space ", "ünïcödé", "a\nb"] {
        assert_eq!(confirm_entry(text, text), Ok(text.to_string()));
    }
}

#[test]
fn a_typed_line_gives_its_text() {
    for text in ["", "hunter2", "with space ", "tab\there", "ünïcödé", "-n", "a\nb"] {
        let line = format!("{text}\n");
        assert_eq!(confirm_entry(&line, &line), Ok(text.to_string()));
    }
}

#[test]
fn prompts_name_the_entry() {
    assert_eq!(entry_prompt("mail"), "Enter password for mail: ");
    assert_eq!(confirmation_prompt("mail"), "Retype password for mail: ");
    assert_eq!(entry_prompt(""), "Enter password for : ");
}

#[test]
fn encrypt_args_name_the_key_and_the_file() {
    assert_eq!(
        encrypt_args("9F8E7D6C5B4A3210", "/tmp/store/mail.gpg"),
        vec!["-e", "-r", "9F8E7D6C5B4A3210", "-o", "/tmp/store/mail.gpg"]
    );
}

#[test]
fn decrypt_args_name_the_file() {
    assert_eq!(decrypt_args("/tmp/store/mail.gpg"), vec!["-d", "/tmp/store/mail.gpg"]);
}

#[test]
fn tool_outcome_tells_success_from_failure() {
    assert_eq!(tool_outcome(true), Ok(()));
    assert_eq!(tool_outcome(false), Err(StoreError::ToolFailure));
}

#[test]
fn read_mail_prints_hunter2() {
    let decryption = Decryption::Plaintext("hunter2".to_string());
    assert_eq!(deliver(false, decryption), Ok(Delivery::Print("hunter2".to_string())));
}

#[test]
fn deliver_copies_where_asked() {
    let decryption = Decryption::Plaintext("hunter2".to_string());
    assert_eq!(deliver(true, decryption), Ok(Delivery::Clipboard("hunter2".to_string())));
}

#[test]
fn deliver_hands_the_plaintext_on_unchanged() {
    let decryption = Decryption::Plaintext("hunter2\n".to_string());
    assert_eq!(deliver(false, decryption), Ok(Delivery::Print("hunter2\n".to_string())));
    let decryption = Decryption::Plaintext(String::new());
    assert_eq!(deliver(true, decryption), Ok(Delivery::Clipboard(String::new())));
}

#[test]
fn deliver_reports_a_missing_entry() {
    assert_eq!(deliver(false, Decryption::Missing), Err(StoreError::SecretNotFound));
    assert_eq!(deliver(true, Decryption::Missing), Err(StoreError::SecretNotFound));
}

#[test]
fn deliver_reports_a_failure_of_the_tool() {
    assert_eq!(deliver(false, Decryption::Failed), Err(StoreError::ToolFailure));
    assert_eq!(deliver(true, Decryption::Failed), Err(StoreError::ToolFailure));
}
