//! The decisions of the HTTP surface.

pub mod auth;
pub mod auth_endpoints;
pub mod auth_middleware;
pub mod error;
pub mod get_recent_messages;
pub mod ignored;
pub mod purge;

use vstd::prelude::*;
use crate::text::chars_of;

verus! {

/// The path under which the API is served.
pub const API_PREFIX: &'static str = "/api/v2";

/// Whether a request path belongs to the API: it is the prefix itself, or
/// begins with the prefix and a slash. A path of the API that no route
/// takes is answered with `not_found`; every other path is looked up among
/// the static files.
pub open spec fn api_path(path: Seq<char>) -> bool {
    path == API_PREFIX@ || (path.len() > API_PREFIX@.len() && path.take(API_PREFIX@.len() as int)
        == API_PREFIX@ && path[API_PREFIX@.len() as int] == '/')
}

/// Whether a request path belongs to the API, see [`api_path`].
pub fn is_api_path(path: &str) -> (api: bool)
    ensures
        api == api_path(path@),
{
    proof {
        reveal_strlit("/api/v2");
    }
    let chars = chars_of(path);
    if chars.len() < 7 {
        return false;
    }
    let prefixed = chars[0] == '/' && chars[1] == 'a' && chars[2] == 'p' && chars[3] == 'i' && chars[4]
        == '/' && chars[5] == 'v' && chars[6] == '2';
    if !prefixed {
        assert(path@.take(7) != API_PREFIX@) by {
            if path@.take(7) == API_PREFIX@ {
                assert(path@.take(7)[0] == '/');
                assert(path@.take(7)[1] == 'a');
                assert(path@.take(7)[2] == 'p');
                assert(path@.take(7)[3] == 'i');
                assert(path@.take(7)[4] == '/');
                assert(path@.take(7)[5] == 'v');
                assert(path@.take(7)[6] == '2');
            }
        }
        assert(path@.len() == 7 ==> path@.take(7) =~= path@);
        return false;
    }
    assert(path@.take(7) =~= API_PREFIX@);
    if chars.len() == 7 {
        assert(path@.take(7) =~= path@);
        true
    } else {
        chars[7] == '/'
    }
}

} // verus!
