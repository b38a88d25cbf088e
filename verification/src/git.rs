//! Credentials and the credential-injected remote URL.
//!
//! The secret pair is resolved once, outside this library, and passed
//! explicitly; it is embedded into the remote URL only for the
//! duration of a pull and never persisted.

use vstd::prelude::*;
use crate::text::starts_with_str;

verus! {

/// A username/password pair used to authenticate synchronization
/// calls.  Immutable once constructed.
#[derive(Debug)]
pub struct Credentials {
    pub username: String,
    pub password: String,
}

/// An immutable credentials value from the resolved secret pair.
pub fn get_git_credentials(username: &str, password: &str) -> (c: Credentials)
    ensures
        c.username@ == username@,
        c.password@ == password@,
{
    Credentials {
        username: String::from_str(username),
        password: String::from_str(password),
    }
}

/// What `urlencoding::encode` returns for a string: its
/// percent-encoding, a function of the characters alone.
pub uninterp spec fn url_encoded(s: Seq<char>) -> Seq<char>;

/// Relies on urlencoding::encode: percent-encodes every byte except
/// alphanumerics and `-`, `_`, `.`, `~`; the result depends on the
/// input alone, and an empty input gives an empty result.
#[verifier::external_body]
fn encode_component(s: &str) -> (r: String)
    ensures
        r@ == url_encoded(s@),
        s@.len() == 0 ==> r@.len() == 0,
{
    urlencoding::encode(s).into_owned()
}

/// The remote URL with the encoded credentials embedded: an `https`
/// URL becomes `https://<user>:<pass>@<rest>`; a URL of any other
/// scheme is left unchanged.
pub open spec fn spec_with_credentials(url: Seq<char>, user: Seq<char>, pass: Seq<char>) -> Seq<char> {
    if url.len() >= 8 && url.subrange(0, 8) == "https://"@ {
        "https://"@ + url_encoded(user) + ":"@ + url_encoded(pass) + "@"@ + url.subrange(
            8,
            url.len() as int,
        )
    } else {
        url
    }
}

/// Namespace for the source-control helpers the sync machine uses.
pub struct GitOperations;

impl GitOperations {
    /// The remote URL rewritten to embed the encoded credentials.
    pub fn with_credentials(url: &str, creds: &Credentials) -> (r: String)
        ensures
            r@ == spec_with_credentials(url@, creds.username@, creds.password@),
    {
        proof {
            reveal_strlit("https://");
        }
        let len = url.unicode_len();
        if starts_with_str(url, "https://") {
            let rest = url.substring_char(8, len);
            let user = encode_component(creds.username.as_str());
            let pass = encode_component(creds.password.as_str());
            let mut out = String::from_str("https://");
            out.append(user.as_str());
            out.append(":");
            out.append(pass.as_str());
            out.append("@");
            out.append(rest);
            proof {
                assert(out@ =~= spec_with_credentials(url@, creds.username@, creds.password@));
            }
            out
        } else {
            String::from_str(url)
        }
    }
}

} // verus!
