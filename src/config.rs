use vstd::prelude::*;
use rand::Rng;

verus! {

/// The number of characters of a machine id.
pub const MACHINE_ID_LEN: usize = 64;

/// The string found at `doc[outer][inner]` when `doc` is read as JSON, or
/// `None` where `doc` is not JSON or that place holds no string.
pub uninterp spec fn json_str_at(doc: Seq<char>, outer: Seq<char>, inner: Seq<char>) -> Option<Seq<char>>;

/// Relies on `serde_json::from_str` into a `serde_json::Value`, its `Index`
/// by key (which yields `Null` for a missing key or a non-object) and
/// `Value::as_str`: the result depends on the three texts alone.
#[verifier::external_body]
fn json_str_field(doc: &str, outer: &str, inner: &str) -> (r: Option<String>)
    ensures
        match r {
            Some(s) => json_str_at(doc@, outer@, inner@) == Some(s@),
            None => json_str_at(doc@, outer@, inner@) is None,
        },
{
    let v: serde_json::Value = serde_json::from_str(doc).ok()?;
    v[outer][inner].as_str().map(|s| s.to_string())
}

/// Relies on `rand::thread_rng` and `Rng::gen_range` over `0..16`, which
/// returns a value of that range and panics only on an empty one.
#[verifier::external_body]
fn random_nibble() -> (r: u8)
    ensures
        r < 16,
{
    rand::thread_rng().gen_range(0u8..16u8)
}

/// Relies on `String::push`, which appends one character.
#[verifier::external_body]
fn push_char(s: &mut String, c: char)
    ensures
        final(s)@ == old(s)@.push(c),
{
    s.push(c)
}

/// A lowercase hexadecimal digit.
pub open spec fn is_lower_hex(c: char) -> bool {
    ('0' <= c && c <= '9') || ('a' <= c && c <= 'f')
}

/// The lowercase hexadecimal digit of `n`.
pub open spec fn hex_digit_spec(n: u8) -> char {
    if n < 10 { ((48 + n) as u8) as char } else { ((87 + n) as u8) as char }
}

/// The lowercase hexadecimal digit of a value below 16.
pub fn hex_digit(n: u8) -> (r: char)
    requires
        n < 16,
    ensures
        r == hex_digit_spec(n),
        is_lower_hex(r),
{
    if n < 10 {
        (48u8 + n) as char
    } else {
        (87u8 + n) as char
    }
}

/// A machine id: 64 lowercase hexadecimal digits.
pub open spec fn is_machine_id(s: Seq<char>) -> bool {
    s.len() == MACHINE_ID_LEN && forall|i: int| 0 <= i < s.len() ==> is_lower_hex(#[trigger] s[i])
}

/// A fresh random machine id.
pub fn generate_machine_id() -> (r: String)
    ensures
        is_machine_id(r@),
{
    let mut id = String::new();
    let mut i: usize = 0;
    while i < MACHINE_ID_LEN
        invariant
            i <= MACHINE_ID_LEN,
            id@.len() == i,
            forall|j: int| 0 <= j < i ==> is_lower_hex(#[trigger] id@[j]),
        decreases MACHINE_ID_LEN - i,
    {
        let c = hex_digit(random_nibble());
        push_char(&mut id, c);
        i = i + 1;
    }
    id
}

/// The characters of an optional string.
pub open spec fn opt_view(o: Option<String>) -> Option<Seq<char>> {
    match o {
        Some(s) => Some(s@),
        None => None,
    }
}

/// The secret to exchange for credentials: the environment's token when the
/// process runs inside a hosted development sandbox, else the one stored in
/// the user's hosts file.
pub open spec fn github_token_spec(
    env_token: Option<Seq<char>>,
    in_codespaces: bool,
    hosts_file: Option<Seq<char>>,
) -> Option<Seq<char>> {
    if env_token is Some && in_codespaces {
        env_token
    } else {
        match hosts_file {
            Some(doc) => json_str_at(doc, "github.com"@, "oauth_token"@),
            None => None,
        }
    }
}

/// Picks the long-lived secret from what the environment and the hosts file
/// hold (`hosts_file` is that file's text, where it could be read).
pub fn find_github_token(env_token: Option<String>, in_codespaces: bool, hosts_file: Option<String>) -> (r: Option<String>)
    ensures
        opt_view(r) == github_token_spec(opt_view(env_token), in_codespaces, opt_view(hosts_file)),
{
    if env_token.is_some() && in_codespaces {
        return env_token;
    }
    match hosts_file {
        Some(doc) => json_str_field(doc.as_str(), "github.com", "oauth_token"),
        None => None,
    }
}

/// The configuration root: the XDG directory where it is set and is a
/// directory, else `fallback`.
pub fn root(xdg_config_home: Option<String>, xdg_is_dir: bool, fallback: String) -> (r: String)
    ensures
        r@ == match xdg_config_home {
            Some(x) => if xdg_is_dir { x@ } else { fallback@ },
            None => fallback@,
        },
{
    match xdg_config_home {
        Some(x) => if xdg_is_dir { x } else { fallback },
        None => fallback,
    }
}

/// The model named in a fresh configuration.
pub fn default_model() -> (r: String)
    ensures
        r@ == "gpt-3.5"@,
{
    String::from_str("gpt-3.5")
}

} // verus!
