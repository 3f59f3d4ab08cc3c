//! Which embedded file answers a request for a static asset.

use vstd::prelude::*;
use crate::text::has_prefix;

verus! {

pub const ASSETS_DIR: &'static str = "assets/";

pub const INDEX_FILE: &'static str = "index.html";

/// `s` without its leading `'/'` characters.
pub open spec fn strip_slashes(s: Seq<char>) -> Seq<char>
    decreases s.len(),
{
    if s.len() > 0 && s[0] == '/' {
        strip_slashes(s.drop_first())
    } else {
        s
    }
}

/// The embedded-file key for a request path.
pub fn asset_key(path: &str) -> (r: String)
    ensures
        r@ == strip_slashes(path@),
{
    let n = path.unicode_len();
    let mut i: usize = 0;
    assert(path@.subrange(0, n as int) == path@);
    while i < n && path.get_char(i) == '/'
        invariant
            n == path@.len(),
            i <= n,
            strip_slashes(path@) == strip_slashes(path@.subrange(i as int, n as int)),
        decreases n - i,
    {
        assert(path@.subrange(i as int, n as int).drop_first() == path@.subrange(i + 1, n as int));
        i = i + 1;
    }
    String::from_str(path.substring_char(i, n))
}

pub enum StaticRoute {
    /// Serve the embedded file with this key.
    File(String),
    /// A missing file under the assets directory.
    NotFound,
    /// Anything else goes to the single-page application's index.
    Index,
}

/// Routes the key `key`, where `exists` tells whether a file is embedded under it.
pub fn route_static(key: &str, exists: bool) -> (r: StaticRoute)
    ensures
        exists ==> (r matches StaticRoute::File(f) && f@ == key@),
        !exists && ASSETS_DIR@.len() <= key@.len() && key@.subrange(0, ASSETS_DIR@.len() as int)
            == ASSETS_DIR@ ==> r is NotFound,
        !exists && !(ASSETS_DIR@.len() <= key@.len() && key@.subrange(
            0,
            ASSETS_DIR@.len() as int,
        ) == ASSETS_DIR@) ==> r is Index,
{
    if exists {
        StaticRoute::File(String::from_str(key))
    } else if has_prefix(key, ASSETS_DIR) {
        StaticRoute::NotFound
    } else {
        StaticRoute::Index
    }
}

} // verus!
