//! CDN URLs derived from the asset id at the end of an upstream image URL.

use vstd::prelude::*;
use vstd::string::StringExecFns;
use vstd::string::StrSliceExecFns;
use crate::text::{str_opt, string_opt, to_chars, trim, trim_bounds, trim_str};

verus! {

/// Prefix of the 800×600 fill-cropped display URL.
pub const HIGH_RES_BASE: &'static str = "https://media.adoptapet.com/image/upload/c_fill,w_800,h_600,g_auto/f_auto,q_auto/";

/// Prefix of the URL that reports an asset's dimensions.
pub const INFO_BASE: &'static str = "https://media.adoptapet.com/image/upload/fl_getinfo/";

/// Prefix of the URL of the asset with only format and quality chosen by the CDN.
pub const ORIGINAL_BASE: &'static str = "https://media.adoptapet.com/image/upload/f_auto,q_auto/";

/// The largest `j <= k` such that `j == 0` or `u[j - 1]` is a slash.
pub open spec fn slash_end(u: Seq<char>, k: int) -> int
    decreases k,
{
    if k <= 0 {
        0
    } else if u[k - 1] == '/' {
        k
    } else {
        slash_end(u, k - 1)
    }
}

/// The first index at or after `i`, and before `u.len()`, that holds a dot;
/// `u.len()` if there is none.
pub open spec fn dot_from(u: Seq<char>, i: int) -> int
    decreases u.len() - i,
{
    if i >= u.len() {
        u.len() as int
    } else if u[i] == '.' {
        i
    } else {
        dot_from(u, i + 1)
    }
}

/// The asset id of a URL: its last path segment up to the first dot, once the
/// URL is trimmed; none where the URL is blank or that part is empty.
pub open spec fn asset_id(s: Seq<char>) -> Option<Seq<char>> {
    let u = trim(s);
    let a = slash_end(u, u.len() as int);
    let b = dot_from(u, a);
    if u.len() == 0 || a == b {
        None
    } else {
        Some(u.subrange(a, b))
    }
}

/// The display URL for an optional upstream URL: none where it is absent or
/// blank, the CDN crop of its asset id where it has one, and the URL itself,
/// unchanged, otherwise.
pub open spec fn high_res(s: Option<Seq<char>>) -> Option<Seq<char>> {
    match s {
        None => None,
        Some(s) => if trim(s).len() == 0 {
            None
        } else {
            match asset_id(s) {
                Some(id) => Some(HIGH_RES_BASE@ + id),
                None => Some(s),
            }
        },
    }
}

/// The asset-id URL built on `base`, if `s` has an asset id.
pub open spec fn on_asset(base: Seq<char>, s: Seq<char>) -> Option<Seq<char>> {
    match asset_id(s) {
        Some(id) => Some(base + id),
        None => None,
    }
}

/// `s` ends with `t`.
pub open spec fn ends_with(s: Seq<char>, t: Seq<char>) -> bool {
    t.len() <= s.len() && s.subrange(s.len() - t.len(), s.len() as int) == t
}

/// Every URL that has an asset id gives a display URL, a dimension URL and an
/// original URL, and all three end with that same asset id.
pub proof fn lemma_derived_urls_share_asset_id(s: Seq<char>)
    requires
        asset_id(s) is Some,
    ensures
        high_res(Some(s)) is Some && ends_with(high_res(Some(s))->0, asset_id(s)->0),
        on_asset(INFO_BASE@, s) is Some && ends_with(on_asset(INFO_BASE@, s)->0, asset_id(s)->0),
        on_asset(ORIGINAL_BASE@, s) is Some && ends_with(
            on_asset(ORIGINAL_BASE@, s)->0,
            asset_id(s)->0,
        ),
{
    let id = asset_id(s)->0;
    assert((HIGH_RES_BASE@ + id).subrange(HIGH_RES_BASE@.len() as int, (HIGH_RES_BASE@ + id).len() as int) =~= id);
    assert((INFO_BASE@ + id).subrange(INFO_BASE@.len() as int, (INFO_BASE@ + id).len() as int) =~= id);
    assert((ORIGINAL_BASE@ + id).subrange(ORIGINAL_BASE@.len() as int, (ORIGINAL_BASE@ + id).len() as int) =~= id);
}

/// Extracts the asset id of an image URL.
pub fn extract_cloudinary_image_id(original_url: &str) -> (r: Option<&str>)
    ensures
        match r {
            Some(id) => asset_id(original_url@) == Some(id@),
            None => asset_id(original_url@) is None,
        },
{
    let v = to_chars(original_url);
    let (a, b) = trim_bounds(&v);
    let ghost u = v@.subrange(a as int, b as int);
    if a == b {
        return None;
    }
    let mut k: usize = b;
    while k > a && v[k - 1] != '/'
        invariant
            a <= k <= b <= v@.len(),
            u == v@.subrange(a as int, b as int),
            slash_end(u, u.len() as int) == slash_end(u, k - a),
        decreases k,
    {
        assert(u[k - a - 1] == v@[k - 1]);
        k = k - 1;
    }
    assert(slash_end(u, u.len() as int) == k - a) by {
        if k > a {
            assert(u[k - a - 1] == v@[k - 1]);
        }
    }
    let mut j: usize = k;
    while j < b && v[j] != '.'
        invariant
            a <= k <= j <= b <= v@.len(),
            u == v@.subrange(a as int, b as int),
            dot_from(u, k - a) == dot_from(u, j - a),
        decreases b - j,
    {
        assert(u[j - a] == v@[j as int]);
        j = j + 1;
    }
    assert(dot_from(u, k - a) == j - a) by {
        if j < b {
            assert(u[j - a] == v@[j as int]);
        }
    }
    if j == k {
        None
    } else {
        assert(u.subrange(k - a, j - a) =~= original_url@.subrange(k as int, j as int));
        Some(original_url.substring_char(k, j))
    }
}

/// The display URL of an image: the CDN's 800×600 crop of its asset id.
pub fn extract_high_res_image_url(original_url: Option<&str>) -> (r: Option<String>)
    ensures
        string_opt(r) == high_res(str_opt(original_url)),
{
    match original_url {
        None => None,
        Some(url) => {
            let trimmed = trim_str(url);
            if trimmed.as_str().unicode_len() == 0 {
                return None;
            }
            match extract_cloudinary_image_id(url) {
                Some(id) => Some(String::from_str(HIGH_RES_BASE).concat(id)),
                None => Some(String::from_str(url)),
            }
        },
    }
}

/// The URL that reports the dimensions of an image's asset.
pub fn build_cloudinary_info_url(original_url: &str) -> (r: Option<String>)
    ensures
        string_opt(r) == on_asset(INFO_BASE@, original_url@),
{
    match extract_cloudinary_image_id(original_url) {
        Some(id) => Some(String::from_str(INFO_BASE).concat(id)),
        None => None,
    }
}

/// The URL of an image's asset with no transformation but automatic format and quality.
pub fn build_cloudinary_original_url(original_url: &str) -> (r: Option<String>)
    ensures
        string_opt(r) == on_asset(ORIGINAL_BASE@, original_url@),
{
    match extract_cloudinary_image_id(original_url) {
        Some(id) => Some(String::from_str(ORIGINAL_BASE).concat(id)),
        None => None,
    }
}

} // verus!
