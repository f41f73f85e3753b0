use copilotha::config::{default_model, find_github_token, generate_machine_id, hex_digit, root};

#[test]
fn machine_id_is_64_lowercase_hex() {
    let id = generate_machine_id();
    assert_eq!(id.len(), 64);
    assert!(id.chars().all(|c| c.is_ascii_digit() || ('a'..='f').contains(&c)));
    assert_ne!(id, generate_machine_id());
}

#[test]
fn hex_digits() {
    assert_eq!(hex_digit(0), '0');
    assert_eq!(hex_digit(9), '9');
    assert_eq!(hex_digit(10), 'a');
    assert_eq!(hex_digit(15), 'f');
}

#[test]
fn env_token_only_inside_codespaces() {
    let hosts = r#"{"github.com":{"user":"u","oauth_token":"gho_file"}}"#.to_string();
    assert_eq!(
        find_github_token(Some("gho_env".to_string()), true, Some(hosts.clone())),
        Some("gho_env".to_string())
    );
    assert_eq!(
        find_github_token(Some("gho_env".to_string()), false, Some(hosts.clone())),
        Some("gho_file".to_string())
    );
    assert_eq!(find_github_token(None, true, Some(hosts)), Some("gho_file".to_string()));
}

#[test]
fn missing_sources_give_no_token() {
    assert_eq!(find_github_token(None, false, None), None);
    assert_eq!(find_github_token(Some("gho_env".to_string()), false, None), None);
    assert_eq!(find_github_token(None, false, Some("not json".to_string())), None);
    assert_eq!(find_github_token(None, false, Some(r#"{"github.com":{}}"#.to_string())), None);
    assert_eq!(find_github_token(None, false, Some(r#"{"github.com":{"oauth_token":7}}"#.to_string())), None);
    assert_eq!(find_github_token(None, false, Some(r#"{"gitlab.com":{"oauth_token":"x"}}"#.to_string())), None);
}

#[test]
fn config_root_prefers_xdg_directory() {
    assert_eq!(root(Some("/x".to_string()), true, "/home/u/.config".to_string()), "/x");
    assert_eq!(root(Some("/x".to_string()), false, "/home/u/.config".to_string()), "/home/u/.config");
    assert_eq!(root(None, true, "/home/u/.config".to_string()), "/home/u/.config");
}

#[test]
fn default_model_name() {
    assert_eq!(default_model(), "gpt-3.5");
}
