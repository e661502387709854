use movey_login::error::{input_error_message, read_error_message, StoreError};
use movey_login::paths::{credential_file_path, resolve_home, TestMode, CREDENTIAL_FILE_MODE};
use movey_login::prompt::{
    accept_input_line, prompt_line, registry_url, retry_line, success_line, trim_input_line,
};

#[test]
fn trimming_strips_one_newline_and_one_carriage_return() {
    assert_eq!(trim_input_line("abc\n"), "abc");
    assert_eq!(trim_input_line("abc\r\n"), "abc");
    assert_eq!(trim_input_line("abc"), "abc");
    assert_eq!(trim_input_line("abc\r"), "abc");
    assert_eq!(trim_input_line("abc\n\n"), "abc\n");
    assert_eq!(trim_input_line("\r\n"), "");
    assert_eq!(trim_input_line(""), "");
}

#[test]
fn blank_lines_are_rejected_and_tokens_accepted() {
    assert_eq!(accept_input_line(""), None);
    assert_eq!(accept_input_line("\n"), None);
    assert_eq!(accept_input_line("\r\n"), None);
    assert_eq!(accept_input_line("tok\r\n"), Some(String::from("tok")));
    assert_eq!(accept_input_line("tok"), Some(String::from("tok")));
}

#[test]
fn urls_match_the_build_flavours() {
    assert_eq!(
        registry_url(true),
        "https://movey-app-staging.herokuapp.com"
    );
    assert_eq!(registry_url(false), "https://movey.net");
}

#[test]
fn prompt_names_the_token_settings_page() {
    let prod = prompt_line("https://movey.net");
    assert_eq!(
        prod,
        "Please paste the API Token found on https://movey.net/settings/tokens below"
    );
    let staging = prompt_line("https://movey-app-staging.herokuapp.com");
    assert!(staging.contains(
        "Please paste the API Token found on https://movey-app-staging.herokuapp.com/settings/tokens below"
    ));
}

#[test]
fn status_lines_are_exact() {
    assert_eq!(retry_line(), "Invalid API Token. Try again!");
    assert_eq!(success_line(), "Token for Movey saved.");
}

#[test]
fn read_errors_carry_the_os_text() {
    let msg = read_error_message("Permission denied (os error 13)");
    assert_eq!(msg, "Error reading input: Permission denied (os error 13)");
    assert!(msg.contains("Error reading input: Permission denied"));
}

#[test]
fn stdin_errors_carry_the_os_text() {
    assert_eq!(
        input_error_message("unexpected end of file"),
        "Error reading file: unexpected end of file"
    );
}

#[test]
fn parse_errors_carry_the_context_line() {
    let e = StoreError::Parse(String::from("unexpected character"));
    assert_eq!(
        e.message(),
        "could not parse input as TOML: unexpected character"
    );
    assert_eq!(
        StoreError::RegistryNotTable.message(),
        "the registry entry of the credential file is not a table"
    );
}

#[test]
fn test_mode_appends_its_suffix_to_the_test_base() {
    let tm = TestMode {
        test_path: String::from("/sandbox"),
    };
    let home = resolve_home(Some(tm), Some(String::from("/base")), None, None);
    assert_eq!(home, "/base/sandbox");
}

#[test]
fn test_mode_with_empty_suffix_uses_the_test_base() {
    let tm = TestMode {
        test_path: String::new(),
    };
    let home = resolve_home(
        Some(tm),
        Some(String::from("/base")),
        Some(String::from("/ignored")),
        None,
    );
    assert_eq!(home, "/base");
}

#[test]
fn production_base_wins_outside_test_mode() {
    let home = resolve_home(
        None,
        None,
        Some(String::from("/move_home")),
        Some(String::from("/home/user")),
    );
    assert_eq!(home, "/move_home");
}

#[test]
fn home_directory_fallback_appends_dot_move() {
    let home = resolve_home(None, None, None, Some(String::from("/home/user")));
    assert_eq!(home, "/home/user/.move");
}

#[test]
fn credential_file_sits_at_its_fixed_path() {
    assert_eq!(credential_file_path("/base"), "/base/credential.toml");
}

#[test]
fn credential_file_mode_is_owner_only() {
    assert_eq!(CREDENTIAL_FILE_MODE, 0o600);
}
