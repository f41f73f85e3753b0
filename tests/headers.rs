use copilotha::util::{embedding_headers, generate_headers, now, version_headers};

fn pair(k: &str, v: &str) -> (String, String) {
    (k.to_string(), v.to_string())
}

#[test]
fn version_headers_are_fixed() {
    assert_eq!(
        version_headers(),
        vec![
            pair("editor-version", "Neovim/8.0.0"),
            pair("editor-plugin-version", "CopilotChat.nvim/2.0.0"),
            pair("user-agent", "CopilotChat.nvim/2.0.0"),
        ]
    );
}

#[test]
fn embedding_headers_exact() {
    let h = embedding_headers("tok", "rid".to_string(), "sess".to_string(), "mach".to_string());
    assert_eq!(
        h,
        vec![
            pair("authorization", "Bearer tok"),
            pair("x-request-id", "rid"),
            pair("vscode-sessionid", "sess"),
            pair("vscode-machineid", "mach"),
            pair("copilot-integration-id", "vscode-chat"),
            pair("openai-organization", "github-copilot"),
            pair("openai-intent", "conversation-panel"),
            pair("content-type", "application/json"),
            pair("editor-version", "Neovim/8.0.0"),
            pair("editor-plugin-version", "CopilotChat.nvim/2.0.0"),
            pair("user-agent", "CopilotChat.nvim/2.0.0"),
        ]
    );
}

#[test]
fn generated_headers_carry_fresh_request_ids() {
    let a = generate_headers("tok".to_string(), "sess".to_string(), "mach".to_string());
    let b = generate_headers("tok".to_string(), "sess".to_string(), "mach".to_string());
    assert_eq!(a.len(), 11);
    assert_eq!(a[0], pair("authorization", "Bearer tok"));
    assert_eq!(a[1].0, "x-request-id");
    assert_eq!(a[1].1.len(), 36);
    assert_eq!(a[1].1.matches('-').count(), 4);
    assert_ne!(a[1].1, b[1].1);
    assert_eq!(a[2], pair("vscode-sessionid", "sess"));
    assert_eq!(a[3], pair("vscode-machineid", "mach"));
}

#[test]
fn now_reads_the_clock() {
    // 2020-01-01T00:00:00Z
    assert!(now() > 1_577_836_800);
}
