//! Credential provisioning: synthetic usernames, the login request target,
//! and the credential file the target executable reads right after launch.

use vstd::prelude::*;
use crate::textfmt::{dec_int, i32_to_string, push_char};

verus! {

/// A credential issued by the login endpoint for one instance; never reused
/// across instances.
pub struct Credential {
    pub token: String,
}

/// The synthetic username provisioned for one assigned user number: the
/// shared prefix followed by the number in decimal.
pub open spec fn spec_username(prefix: Seq<char>, user_number: int) -> Seq<char> {
    prefix + dec_int(user_number)
}

/// Builds the synthetic username for `user_number`.
pub fn synthetic_username(prefix: &str, user_number: i32) -> (r: String)
    ensures
        r@ == spec_username(prefix@, user_number as int),
{
    let mut out = prefix.to_owned();
    let digits = i32_to_string(user_number);
    out.append(digits.as_str());
    out
}

/// The login endpoint: the backend base URL with the token route appended.
pub open spec fn spec_login_url(backend: Seq<char>) -> Seq<char> {
    backend + "api-token-auth/"@
}

/// Builds the login endpoint URL from the backend base URL.
pub fn login_url(backend: &str) -> (r: String)
    ensures
        r@ == spec_login_url(backend@),
{
    let mut out = backend.to_owned();
    out.append("api-token-auth/");
    out
}

/// The fixed path the credential is persisted to: the output directory,
/// relative to the working directory, with the fixed file name. Every
/// instance's credential is written to this same path, each write replacing
/// the one before.
pub open spec fn spec_auth_file_path(dir: Seq<char>) -> Seq<char> {
    "./"@ + dir + "/auth.json"@
}

/// Builds the credential file path for the given output directory.
pub fn auth_file_path(dir: &str) -> (r: String)
    ensures
        r@ == spec_auth_file_path(dir@),
{
    let mut out = "./".to_owned();
    out.append(dir);
    out.append("/auth.json");
    assert(out@ =~= spec_auth_file_path(dir@));
    out
}

/// The character for a single hexadecimal digit.
pub open spec fn hex_digit(d: int) -> char {
    if d == 10 {
        'a'
    } else if d == 11 {
        'b'
    } else if d == 12 {
        'c'
    } else if d == 13 {
        'd'
    } else if d == 14 {
        'e'
    } else if d == 15 {
        'f'
    } else {
        crate::textfmt::dec_digit(d)
    }
}

/// How one character appears inside a JSON string literal: quote, backslash
/// and the named control characters get a two-character escape, any other
/// control character a `\u00..` escape, and everything else stands as is.
pub open spec fn json_escape_char(c: char) -> Seq<char> {
    if c == '"' {
        seq!['\\', '"']
    } else if c == '\\' {
        seq!['\\', '\\']
    } else if c == '\n' {
        seq!['\\', 'n']
    } else if c == '\r' {
        seq!['\\', 'r']
    } else if c == '\t' {
        seq!['\\', 't']
    } else if c == '\u{8}' {
        seq!['\\', 'b']
    } else if c == '\u{c}' {
        seq!['\\', 'f']
    } else if (c as u32) < 0x20 {
        seq!['\\', 'u', '0', '0', hex_digit(c as u32 as int / 16), hex_digit(c as u32 as int % 16)]
    } else {
        seq![c]
    }
}

/// A whole string escaped for use inside a JSON string literal.
pub open spec fn json_escape(s: Seq<char>) -> Seq<char>
    decreases s.len(),
{
    if s.len() == 0 {
        Seq::empty()
    } else {
        json_escape_char(s[0]) + json_escape(s.drop_first())
    }
}

proof fn lemma_json_escape_push(s: Seq<char>, c: char)
    ensures
        json_escape(s.push(c)) == json_escape(s) + json_escape_char(c),
    decreases s.len(),
{
    if s.len() == 0 {
        assert(s.push(c)[0] == c);
        assert(s.push(c).drop_first() =~= s);
        assert(json_escape(s.push(c)) =~= json_escape(s) + json_escape_char(c));
    } else {
        assert(s.push(c)[0] == s[0]);
        assert(s.push(c).drop_first() =~= s.drop_first().push(c));
        lemma_json_escape_push(s.drop_first(), c);
        assert(json_escape(s.push(c)) =~= json_escape(s) + json_escape_char(c));
    }
}

fn hex_digit_exec(d: u32) -> (c: char)
    requires
        d < 16,
    ensures
        c == hex_digit(d as int),
{
    if d == 10 {
        'a'
    } else if d == 11 {
        'b'
    } else if d == 12 {
        'c'
    } else if d == 13 {
        'd'
    } else if d == 14 {
        'e'
    } else if d == 15 {
        'f'
    } else if d == 0 {
        '0'
    } else if d == 1 {
        '1'
    } else if d == 2 {
        '2'
    } else if d == 3 {
        '3'
    } else if d == 4 {
        '4'
    } else if d == 5 {
        '5'
    } else if d == 6 {
        '6'
    } else if d == 7 {
        '7'
    } else if d == 8 {
        '8'
    } else {
        '9'
    }
}

fn push_escaped_char(out: &mut String, c: char)
    ensures
        final(out)@ == old(out)@ + json_escape_char(c),
{
    if c == '"' {
        push_char(out, '\\');
        push_char(out, '"');
    } else if c == '\\' {
        push_char(out, '\\');
        push_char(out, '\\');
    } else if c == '\n' {
        push_char(out, '\\');
        push_char(out, 'n');
    } else if c == '\r' {
        push_char(out, '\\');
        push_char(out, 'r');
    } else if c == '\t' {
        push_char(out, '\\');
        push_char(out, 't');
    } else if c == '\u{8}' {
        push_char(out, '\\');
        push_char(out, 'b');
    } else if c == '\u{c}' {
        push_char(out, '\\');
        push_char(out, 'f');
    } else if (c as u32) < 0x20 {
        push_char(out, '\\');
        push_char(out, 'u');
        push_char(out, '0');
        push_char(out, '0');
        let hi = hex_digit_exec((c as u32) / 16);
        push_char(out, hi);
        let lo = hex_digit_exec((c as u32) % 16);
        push_char(out, lo);
    } else {
        push_char(out, c);
    }
    assert(out@ =~= old(out)@ + json_escape_char(c));
}

/// The credential file contents: a pretty-printed JSON object holding the
/// one field `token`, with the token escaped as a JSON string literal.
pub open spec fn spec_credential_json(token: Seq<char>) -> Seq<char> {
    "{\n  \"token\": \""@ + json_escape(token) + "\"\n}"@
}

impl Credential {
    /// Renders this credential as the credential file's contents.
    pub fn to_json(&self) -> (r: String)
        ensures
            r@ == spec_credential_json(self.token@),
    {
        credential_json(self.token.as_str())
    }
}

/// Renders the credential file contents for `token`.
pub fn credential_json(token: &str) -> (r: String)
    ensures
        r@ == spec_credential_json(token@),
{
    let mut out = "{\n  \"token\": \"".to_owned();
    let n = token.unicode_len();
    let mut i: usize = 0;
    while i < n
        invariant
            n == token@.len(),
            i <= n,
            out@ == "{\n  \"token\": \""@ + json_escape(token@.subrange(0, i as int)),
        decreases n - i,
    {
        let c = token.get_char(i);
        proof {
            lemma_json_escape_push(token@.subrange(0, i as int), token@[i as int]);
            assert(token@.subrange(0, i as int).push(token@[i as int]) =~= token@.subrange(
                0,
                i + 1 as int,
            ));
        }
        push_escaped_char(&mut out, c);
        assert(out@ =~= "{\n  \"token\": \""@ + json_escape(token@.subrange(0, i + 1 as int)));
        i += 1;
    }
    proof {
        assert(token@.subrange(0, n as int) =~= token@);
    }
    out.append("\"\n}");
    assert(out@ =~= spec_credential_json(token@));
    out
}

} // verus!
