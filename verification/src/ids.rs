//! Instance identifiers: random 128-bit values with a textual form, and the
//! per-instance socket paths derived from them.

use vstd::prelude::*;
use vstd::string::StringExecFns;
use crate::errors::Error;

verus! {

/// The textual (hyphenated) form of a 128-bit identifier: a function of the
/// identifier alone.
pub uninterp spec fn uuid_text_of(n: u128) -> Seq<char>;

/// What parsing a textual identifier yields: a function of the text alone.
pub uninterp spec fn uuid_parse_of(s: Seq<char>) -> Option<u128>;

/// Relies on uuid::Uuid::new_v4: a fresh random identifier. Nothing is
/// promised of the value.
#[verifier::external_body]
fn fresh_uuid() -> u128 {
    uuid::Uuid::new_v4().as_u128()
}

/// Relies on uuid::Uuid's hyphenated textual form: 36 characters, determined
/// by the identifier alone, and read back by uuid::Uuid::parse_str.
#[verifier::external_body]
fn uuid_to_string(n: u128) -> (r: String)
    ensures
        r@ == uuid_text_of(n),
        r@.len() == 36,
        uuid_parse_of(r@) == Some(n),
{
    uuid::Uuid::from_u128(n).to_string()
}

/// Relies on uuid::Uuid::parse_str: reads a textual identifier, determined
/// by the text alone.
#[verifier::external_body]
fn uuid_from_string(s: &str) -> (r: Option<u128>)
    ensures
        r == uuid_parse_of(s@),
{
    match uuid::Uuid::parse_str(s) {
        Ok(u) => Some(u.as_u128()),
        Err(_) => None,
    }
}

/// A unique identifier for one playback instance.
#[derive(Debug, Clone, Copy, PartialEq, Eq, Hash, Structural)]
pub struct VideoId {
    /// The identifier's 128-bit value.
    pub raw: u128,
}

impl VideoId {
    /// A fresh random identifier.
    pub fn new() -> Self {
        VideoId { raw: fresh_uuid() }
    }

    /// The identifier built from a known value.
    pub fn from_raw(raw: u128) -> (r: Self)
        ensures
            r.raw == raw,
    {
        VideoId { raw }
    }

    /// The identifier's textual form.
    pub fn to_string(&self) -> (r: String)
        ensures
            r@ == uuid_text_of(self.raw),
            r@.len() == 36,
            uuid_parse_of(r@) == Some(self.raw),
    {
        uuid_to_string(self.raw)
    }

    /// Reads an identifier back from its textual form; malformed text is a
    /// typed error.
    pub fn from_string(s: &str) -> (r: Result<Self, Error>)
        ensures
            uuid_parse_of(s@) matches Some(n) ==> (r matches Ok(id) && id.raw == n),
            uuid_parse_of(s@) is None ==> (r matches Err(e) && e matches Error::VideoIdError(
                _,
            )),
    {
        match uuid_from_string(s) {
            Some(n) => Ok(VideoId { raw: n }),
            None => Err(Error::VideoIdError(String::from_str("Invalid VideoId string"))),
        }
    }
}

/// Whether a file name is one of this library's socket files, as the
/// stale-socket cleanup decides which files to remove.
pub fn is_socket_file_name(name: &str) -> (r: bool)
    ensures
        r == (name@.len() >= "mpv-socket-"@.len() && name@.take("mpv-socket-"@.len() as int)
            == "mpv-socket-"@),
{
    crate::text::str_starts_with(name, "mpv-socket-")
}

/// A fresh socket path for one player process: a fixed prefix and a fresh
/// identifier, so two instances never share a path.
pub fn generate_socket_path() -> (r: String)
    ensures
        exists|n: u128| r@ == "/tmp/mpv-socket-"@ + uuid_text_of(n),
        r@.len() == 52,
{
    let n = fresh_uuid();
    let tail = uuid_to_string(n);
    let mut path = String::from_str("/tmp/mpv-socket-");
    path.append(tail.as_str());
    proof {
        reveal_strlit("/tmp/mpv-socket-");
        assert(path@ == "/tmp/mpv-socket-"@ + uuid_text_of(n));
    }
    path
}

} // verus!
