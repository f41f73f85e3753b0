use vstd::prelude::*;
use crate::headers::{extend_headers, pairs_view, push_header};

verus! {

/// The client-identification headers sent with every remote call.
pub open spec fn version_header_pairs() -> Seq<(Seq<char>, Seq<char>)> {
    seq![
        ("editor-version"@, "Neovim/8.0.0"@),
        ("editor-plugin-version"@, "CopilotChat.nvim/2.0.0"@),
        ("user-agent"@, "CopilotChat.nvim/2.0.0"@),
    ]
}

/// Every header of an embedding call, given the request id drawn for it.
pub open spec fn embedding_header_pairs(
    token: Seq<char>,
    request_id: Seq<char>,
    session_id: Seq<char>,
    machine_id: Seq<char>,
) -> Seq<(Seq<char>, Seq<char>)> {
    seq![
        ("authorization"@, "Bearer "@ + token),
        ("x-request-id"@, request_id),
        ("vscode-sessionid"@, session_id),
        ("vscode-machineid"@, machine_id),
        ("copilot-integration-id"@, "vscode-chat"@),
        ("openai-organization"@, "github-copilot"@),
        ("openai-intent"@, "conversation-panel"@),
        ("content-type"@, "application/json"@),
    ] + version_header_pairs()
}

/// Relies on `SystemTime::now` and `SystemTime::duration_since(UNIX_EPOCH)`:
/// the whole seconds since the epoch, or `None` for a clock set before it.
#[verifier::external_body]
fn seconds_since_epoch() -> (r: Option<u64>) {
    match std::time::SystemTime::now().duration_since(std::time::UNIX_EPOCH) {
        Ok(d) => Some(d.as_secs()),
        Err(_) => None,
    }
}

/// Relies on `uuid::Uuid::new_v4` and its hyphenated text form, which is
/// always 36 characters long.
#[verifier::external_body]
fn random_request_id() -> (r: String)
    ensures
        r@.len() == 36,
{
    uuid::Uuid::new_v4().to_string()
}

/// The current time in whole seconds since the Unix epoch. A clock set
/// before the epoch reads as 0, a moment that no credential outlives.
pub fn now() -> u64 {
    match seconds_since_epoch() {
        Some(s) => s,
        None => 0,
    }
}

/// The client-identification headers, in a fixed order.
pub fn version_headers() -> (r: Vec<(String, String)>)
    ensures
        pairs_view(r@) == version_header_pairs(),
{
    let mut headers: Vec<(String, String)> = Vec::new();
    push_header(&mut headers, "editor-version", String::from_str("Neovim/8.0.0"));
    push_header(&mut headers, "editor-plugin-version", String::from_str("CopilotChat.nvim/2.0.0"));
    push_header(&mut headers, "user-agent", String::from_str("CopilotChat.nvim/2.0.0"));
    assert(pairs_view(headers@) =~= version_header_pairs());
    headers
}

/// The headers of an embedding call that carries `request_id`.
pub fn embedding_headers(token: &str, request_id: String, session_id: String, machine_id: String) -> (r: Vec<(String, String)>)
    ensures
        pairs_view(r@) == embedding_header_pairs(token@, request_id@, session_id@, machine_id@),
{
    let ghost (rid, sid, mid) = (request_id@, session_id@, machine_id@);
    let mut headers: Vec<(String, String)> = Vec::new();
    push_header(&mut headers, "authorization", String::from_str("Bearer ").concat(token));
    push_header(&mut headers, "x-request-id", request_id);
    push_header(&mut headers, "vscode-sessionid", session_id);
    push_header(&mut headers, "vscode-machineid", machine_id);
    push_header(&mut headers, "copilot-integration-id", String::from_str("vscode-chat"));
    push_header(&mut headers, "openai-organization", String::from_str("github-copilot"));
    push_header(&mut headers, "openai-intent", String::from_str("conversation-panel"));
    push_header(&mut headers, "content-type", String::from_str("application/json"));
    extend_headers(&mut headers, version_headers());
    assert(pairs_view(headers@) =~= embedding_header_pairs(token@, rid, sid, mid));
    headers
}

/// The headers of an embedding call, with a fresh random request id.
pub fn generate_headers(token: String, session_id: String, machine_id: String) -> (r: Vec<(String, String)>)
    ensures
        pairs_view(r@).len() == 11,
        pairs_view(r@)[1].1.len() == 36,
        pairs_view(r@) == embedding_header_pairs(token@, pairs_view(r@)[1].1, session_id@, machine_id@),
{
    let request_id = random_request_id();
    let r = embedding_headers(token.as_str(), request_id, session_id, machine_id);
    assert(pairs_view(r@).len() == 11);
    r
}

} // verus!
