//! Provider API values: the identity payload, the API client handle, and the small
//! decisions taken on API answers.

use vstd::prelude::*;

verus! {

/// Mailbox label endpoint whose `messagesUnread` is the unread count.
pub const UNREAD_LABEL_URL: &'static str = "https://gmail.googleapis.com/gmail/v1/users/me/labels/INBOX";

/// OpenID Connect identity endpoint.
pub const USERINFO_URL: &'static str = "https://www.googleapis.com/oauth2/v3/userinfo";

/// Mailbox profile endpoint (gives `emailAddress`).
pub const PROFILE_URL: &'static str = "https://gmail.googleapis.com/gmail/v1/users/me/profile";

/// HTTP status of an unauthorized answer.
pub const HTTP_UNAUTHORIZED: u16 = 401;

/// Identity returned by the provider.
#[derive(Debug, Clone)]
pub struct GoogleUserInfo {
    /// Full name, if shared.
    pub name: Option<String>,
    /// Picture URL, if any.
    pub picture: Option<String>,
    /// Email address.
    pub email: String,
}

/// Handle for calls to the provider API with one access token.
#[derive(Debug, Clone)]
pub struct GmailApiClient {
    /// The decrypted access token sent as bearer credential.
    pub access_token: String,
}

impl GmailApiClient {
    /// A client that authenticates with `access_token`.
    pub fn new(access_token: String) -> (r: GmailApiClient)
        ensures
            r.access_token == access_token,
    {
        GmailApiClient { access_token }
    }
}

/// The unread count of a label answer: `messagesUnread`, or zero when absent.
pub fn unread_count_from_label(messages_unread: Option<u32>) -> (r: u32)
    ensures
        r == match messages_unread {
            Some(n) => n,
            None => 0u32,
        },
{
    match messages_unread {
        Some(n) => n,
        None => 0,
    }
}

/// An answer status that means the access token was refused.
pub fn is_unauthorized(status: u16) -> (r: bool)
    ensures
        r == (status == HTTP_UNAUTHORIZED),
{
    status == HTTP_UNAUTHORIZED
}

/// The avatar reference to report: the cached local copy when there is one, else the remote
/// picture URL, else empty.
pub fn avatar_reference(picture: Option<String>, cached: Option<String>) -> (r: String)
    ensures
        picture is None ==> r@ == Seq::<char>::empty(),
        picture matches Some(p) ==> (cached matches Some(c) ==> r == c) && (cached is None ==> r == p),
{
    match picture {
        None => String::new(),
        Some(p) => match cached {
            Some(c) => c,
            None => p,
        },
    }
}

/// `email` with `@` and `.` replaced by `_`.
pub open spec fn safe_name(email: Seq<char>) -> Seq<char> {
    email.map_values(|c: char| if c == '@' || c == '.' { '_' } else { c })
}

/// A file-name-safe form of an email: `@` and `.` become `_`.
pub fn safe_file_stem(email: &str) -> (r: String)
    ensures
        r@ == safe_name(email@),
{
    let n = email.unicode_len();
    let mut out = String::new();
    let mut i: usize = 0;
    while i < n
        invariant
            n == email@.len(),
            i <= n,
            out@ == safe_name(email@.take(i as int)),
        decreases n - i,
    {
        let c = email.get_char(i);
        if c == '@' || c == '.' {
            out.append("_");
        } else {
            let piece = email.substring_char(i, i + 1);
            out.append(piece);
        }
        proof {
            reveal_strlit("_");
            assert(email@.take(i + 1) =~= email@.take(i as int).push(c));
        }
        assert(out@ =~= safe_name(email@.take(i + 1)));
        i = i + 1;
    }
    assert(email@.take(n as int) =~= email@);
    out
}

/// `n` is the length of the part of `email` before its first `@` (all of it when there is none).
pub open spec fn local_part_len(email: Seq<char>, n: int) -> bool {
    &&& 0 <= n <= email.len()
    &&& forall|j: int| 0 <= j < n ==> email[j] != '@'
    &&& (n < email.len() ==> email[n] == '@')
}

/// The display name derived from a mailbox address: its part before the first `@`.
pub fn display_name_from_email(email: &str) -> (r: String)
    ensures
        exists|n: int| local_part_len(email@, n) && r@ == email@.take(n),
{
    let len = email.unicode_len();
    let mut i: usize = 0;
    while i < len
        invariant
            len == email@.len(),
            i <= len,
            forall|j: int| 0 <= j < i ==> email@[j] != '@',
        ensures
            i <= len,
            forall|j: int| 0 <= j < i ==> email@[j] != '@',
            i < len ==> email@[i as int] == '@',
        decreases len - i,
    {
        if email.get_char(i) == '@' {
            break;
        }
        i = i + 1;
    }
    let r = email.substring_char(0, i).to_string();
    assert(local_part_len(email@, i as int));
    assert(r@ =~= email@.take(i as int));
    r
}

} // verus!
