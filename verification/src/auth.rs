//! Browser sign-in: the state token, the URLs, the reading of poll answers,
//! and the status line.

use vstd::prelude::*;
use crate::text::{owned, push_char, push_str};
use vstd::string::*;
use vstd::utf8::*;

verus! {

/// The lower-case hexadecimal digit for `d` (`d < 16`).
pub open spec fn hex_digit(d: nat) -> char {
    if d < 10 {
        (48 + d) as char
    } else {
        (87 + d) as char
    }
}

/// Two lower-case hexadecimal digits per byte, in order (as `{:02x}`).
pub open spec fn hex_text(bytes: Seq<u8>) -> Seq<char>
    decreases bytes.len(),
{
    if bytes.len() == 0 {
        Seq::empty()
    } else {
        let b = bytes.last();
        hex_text(bytes.drop_last()).push(hex_digit((b / 16) as nat)).push(hex_digit((b % 16) as nat))
    }
}

fn hex_digit_char(d: u8) -> (c: char)
    requires
        d < 16,
    ensures
        c == hex_digit(d as nat),
{
    if d < 10 {
        (48u8 + d) as char
    } else {
        (87u8 + d) as char
    }
}

/// The sign-in state token for random `bytes`: their lower-case hex encoding.
pub fn state_token(bytes: &Vec<u8>) -> (s: String)
    ensures
        s@ == hex_text(bytes@),
{
    let mut s = String::new();
    let mut i: usize = 0;
    while i < bytes.len()
        invariant
            i <= bytes.len(),
            s@ == hex_text(bytes@.take(i as int)),
        decreases bytes.len() - i,
    {
        let b = bytes[i];
        push_char(&mut s, hex_digit_char(b / 16));
        push_char(&mut s, hex_digit_char(b % 16));
        assert(bytes@.take(i + 1).drop_last() =~= bytes@.take(i as int));
        i = i + 1;
    }
    assert(bytes@.take(bytes.len() as int) =~= bytes@);
    s
}

/// The page that signs the user in and authorizes the CLI for `state`.
pub open spec fn login_url(state: Seq<char>) -> Seq<char> {
    "https://mochify.app/auth/cli?state="@ + state
}

/// The address of the sign-in page for `state`.
pub fn auth_login_url(state: &str) -> (u: String)
    ensures
        u@ == login_url(state@),
{
    let mut u = owned("https://mochify.app/auth/cli?state=");
    push_str(&mut u, state);
    u
}

/// The address polled until sign-in for `state` completes.
pub open spec fn poll_url(state: Seq<char>) -> Seq<char> {
    "https://id.mochify.app/v1/cli/poll/"@ + state
}

/// The address to poll for the result of sign-in with `state`.
pub fn auth_poll_url(state: &str) -> (u: String)
    ensures
        u@ == poll_url(state@),
{
    let mut u = owned("https://id.mochify.app/v1/cli/poll/");
    push_str(&mut u, state);
    u
}

/// What a poll answer means for sign-in.
#[derive(Debug, Clone, Copy, PartialEq, Eq)]
pub enum PollOutcome {
    /// 200: the body carries the API key.
    Authorized,
    /// No answer, 404 (not yet authorized) or any other status: poll again.
    KeepWaiting,
}

/// Reads a poll answer: `status` is the HTTP status, `None` when the
/// request failed. Only 200 completes sign-in.
pub fn poll_outcome(status: Option<u16>) -> (o: PollOutcome)
    ensures
        o == (if status == Some(200u16) {
            PollOutcome::Authorized
        } else {
            PollOutcome::KeepWaiting
        }),
{
    match status {
        Some(code) => if code == 200 {
            PollOutcome::Authorized
        } else {
            PollOutcome::KeepWaiting
        },
        None => PollOutcome::KeepWaiting,
    }
}

/// The number of bytes of a key shown in the status line: eight, or all
/// of a shorter key.
pub open spec fn preview_len(key: Seq<char>) -> int {
    let n = encode_utf8(key).len() as int;
    if n < 8 {
        n
    } else {
        8
    }
}

/// The characters encoded by the first `preview_len` bytes of a key.
pub open spec fn key_preview(key: Seq<char>) -> Seq<char> {
    decode_utf8(encode_utf8(key).take(preview_len(key)))
}

/// The line shown by `mochify auth status`: a preview of the saved key, or
/// how to sign in.
pub open spec fn auth_status_text(key: Option<Seq<char>>) -> Seq<char> {
    match key {
        Some(k) => "Authenticated (key: "@ + key_preview(k) + "…)"@,
        None => "Not authenticated. Run `mochify auth login` to sign in."@,
    }
}

/// The authentication status line for the saved key, if any. The preview is
/// the key's first eight bytes, which must end on a character boundary.
pub fn auth_status_message(key: &Option<String>) -> (m: String)
    requires
        key is Some ==> encode_utf8(key->0@).len() <= usize::MAX,
        key is Some ==> is_char_boundary(encode_utf8(key->0@), preview_len(key->0@)),
    ensures
        m@ == auth_status_text(key.deep_view()),
{
    match key {
        Some(k) => {
            let ks: &str = k.as_str();
            assert(ks@ == k@);
            assert(ks.spec_bytes() == encode_utf8(k@));
            let n = ks.len();
            let end = if n < 8 {
                n
            } else {
                8
            };
            assert(end as int == preview_len(k@));
            let (preview, _) = ks.split_at(end);
            proof {
                broadcast use vstd::utf8::encode_utf8_decode_utf8;

                assert(preview.spec_bytes() =~= encode_utf8(k@).take(end as int));
                assert(preview@ == decode_utf8(encode_utf8(preview@)));
            }
            let mut m = owned("Authenticated (key: ");
            push_str(&mut m, preview);
            push_str(&mut m, "…)");
            m
        },
        None => owned("Not authenticated. Run `mochify auth login` to sign in."),
    }
}

} // verus!
