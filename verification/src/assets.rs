//! Asset naming conventions and the fetch decision.
//!
//! A texture asset lives under `assets/<name>.png`; its keyed variant is
//! written beside it as `<name>_transparent.png`. A fetched image
//! descriptor is usable only when the pointer it carries holds an
//! `http` scheme; a descriptor without one is skipped, never an error.

use vstd::prelude::*;
use vstd::string::StringExecFns;

verus! {

/// The file name of the keyed variant of asset `name`.
pub fn transparent_path(name: &str) -> (path: String)
    ensures
        path@ == name@ + "_transparent.png"@,
{
    String::from_str(name).concat("_transparent.png")
}

/// The file path a raw texture asset `name` is stored under.
pub fn asset_png_path(name: &str) -> (path: String)
    ensures
        path@ == "assets/"@ + name@ + ".png"@,
{
    String::from_str("assets/").concat(name).concat(".png")
}

/// Whether the bytes `http` stand somewhere in `s`, starting at `i`.
pub open spec fn is_http_at(s: Seq<u8>, i: int) -> bool {
    &&& 0 <= i
    &&& i + 4 <= s.len()
    &&& s[i] == 104u8
    &&& s[i + 1] == 116u8
    &&& s[i + 2] == 116u8
    &&& s[i + 3] == 112u8
}

/// Decides whether a fetched image descriptor is usable: its pointer,
/// given as UTF-8 bytes, must hold `http` somewhere. When this returns
/// false the asset is skipped.
pub fn has_http_scheme(url: &Vec<u8>) -> (found: bool)
    ensures
        found == exists|i: int| is_http_at(url@, i),
{
    if url.len() < 4 {
        return false;
    }
    let end = url.len() - 4;
    let mut i: usize = 0;
    while i <= end
        invariant
            url.len() >= 4,
            end == url.len() - 4,
            i <= end + 1,
            forall|j: int| 0 <= j < i ==> !is_http_at(url@, j),
        decreases end + 1 - i,
    {
        if url[i] == 104u8 && url[i + 1] == 116u8 && url[i + 2] == 116u8 && url[i + 3] == 112u8 {
            assert(is_http_at(url@, i as int));
            return true;
        }
        i += 1;
    }
    proof {
        assert forall|j: int| !is_http_at(url@, j) by {
            if 0 <= j < i as int {
                assert(!is_http_at(url@, j));
            }
        }
    }
    false
}

} // verus!
