//! Judging the outcome of an HTTP download.

use vstd::prelude::*;
use crate::binary_install::error::Error;
use crate::text::{decimal, push_decimal, push_str, from_chars};

verus! {

/// The context attached to a failed request for `url`.
pub open spec fn url_context_of(url: Seq<char>) -> Seq<char> {
    "when requesting "@ + url
}

/// The message for a response with a status code outside `200..300`.
pub open spec fn bad_status_message(url: Seq<char>, status: nat) -> Seq<char> {
    "received a bad HTTP status code ("@ + decimal(status) + ") when requesting "@ + url
}

/// The context attached to a failed request for `url`: `when requesting
/// $URL`.
pub fn with_url_context(url: &str) -> (r: String)
    ensures
        r@ == url_context_of(url@),
{
    let mut v: Vec<char> = Vec::new();
    push_str(&mut v, "when requesting ");
    push_str(&mut v, url);
    proof {
        reveal_strlit("when requesting ");
        assert(v@ =~= url_context_of(url@));
    }
    from_chars(&v)
}

/// What a completed transfer of `url` yields: its body when the status code
/// is a success (`200..300`), an HTTP error naming the code otherwise.
pub fn curl(url: &str, status_code: u32, data: Vec<u8>) -> (r: Result<Vec<u8>, Error>)
    ensures
        200 <= status_code < 300 ==> r == Ok::<Vec<u8>, Error>(data),
        !(200 <= status_code < 300) ==> (r matches Err(e) && e is Http
            && e.message_of() == bad_status_message(url@, status_code as nat)),
{
    if 200 <= status_code && status_code < 300 {
        Ok(data)
    } else {
        let mut v: Vec<char> = Vec::new();
        push_str(&mut v, "received a bad HTTP status code (");
        push_decimal(&mut v, status_code as u64);
        push_str(&mut v, ") when requesting ");
        push_str(&mut v, url);
        proof {
            reveal_strlit("received a bad HTTP status code (");
            reveal_strlit(") when requesting ");
            assert(v@ =~= bad_status_message(url@, status_code as nat));
        }
        let m = from_chars(&v);
        Err(Error::http(m.as_str()))
    }
}

} // verus!
