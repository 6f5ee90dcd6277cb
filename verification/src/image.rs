//! Splitting image references of the form `name:tag` and rebuilding them.

use vstd::prelude::*;
use vstd::string::*;
use crate::strutil::{chars_of, string_of, subvec};

verus! {

/// Index of the last `sep` before `j`, or `-1` if there is none.
pub open spec fn last_sep(s: Seq<char>, j: int, sep: char) -> int
    decreases j
    when 0 <= j <= s.len()
{
    if j == 0 {
        -1
    } else if s[j - 1] == sep {
        j - 1
    } else {
        last_sep(s, j - 1, sep)
    }
}

/// Index of the last `:` in `s`, or `-1` if there is none.
pub open spec fn last_colon(s: Seq<char>) -> int {
    last_sep(s, s.len() as int, ':')
}

/// A scan from the right that saw no separator in `[j, hi)` may start at `j`.
pub proof fn lemma_last_sep_skip(s: Seq<char>, hi: int, j: int, sep: char)
    requires
        0 <= j <= hi <= s.len(),
        forall|k: int| j <= k < hi ==> s[k] != sep,
    ensures
        last_sep(s, hi, sep) == last_sep(s, j, sep),
    decreases hi - j,
{
    if j < hi {
        lemma_last_sep_skip(s, hi - 1, j, sep);
    }
}

/// An image reference without a `:` separating name from tag.
#[derive(Clone, Copy, Debug, PartialEq, Eq, Structural)]
pub enum ImageError {
    /// No tag separator in the reference.
    NoTag,
}

/// Split an image reference on its last `:` into name and tag; a reference
/// without `:` is invalid for this purpose.
pub fn parse_image(image: &str) -> (r: Result<(String, String), ImageError>)
    ensures
        match r {
            Ok(p) => {
                &&& last_colon(image@) >= 0
                &&& p.0@ == image@.subrange(0, last_colon(image@))
                &&& p.1@ == image@.subrange(last_colon(image@) + 1, image@.len() as int)
            },
            Err(_) => last_colon(image@) == -1,
        },
{
    let v = chars_of(image);
    let n: usize = v.len();
    let mut j: usize = n;
    while j > 0 && v[j - 1] != ':'
        invariant
            j <= n,
            n == v@.len(),
            forall|k: int| j <= k < n ==> v@[k] != ':',
        decreases j,
    {
        j -= 1;
    }
    proof {
        lemma_last_sep_skip(v@, n as int, j as int, ':');
    }
    if j == 0 {
        return Err(ImageError::NoTag);
    }
    let name = string_of(&subvec(&v, 0, j - 1));
    let tag = string_of(&subvec(&v, j, n));
    Ok((name, tag))
}

/// The tag after the last `:`, or the whole string when there is no `:`.
pub open spec fn tag_or_whole(s: Seq<char>) -> Seq<char> {
    if last_colon(s) == -1 {
        s
    } else {
        s.subrange(last_colon(s) + 1, s.len() as int)
    }
}

fn version_part(image: &str) -> (r: String)
    ensures
        r@ == tag_or_whole(image@),
{
    match parse_image(image) {
        Ok((_, tag)) => tag,
        Err(_) => {
            proof {
                assert(image@.subrange(0, image@.len() as int) =~= image@);
            }
            let v = chars_of(image);
            string_of(&v)
        },
    }
}

/// The version tags held by a pair of image references: everything after
/// each reference's last `:`, or the whole reference when it has none.
pub fn extract_versions(current_image: &str, new_image: &str) -> (r: (String, String))
    ensures
        r.0@ == tag_or_whole(current_image@),
        r.1@ == tag_or_whole(new_image@),
{
    (version_part(current_image), version_part(new_image))
}

/// A registry host as it appears in event payloads: an empty host names the
/// default public registry.
pub open spec fn spec_extract_registry(registry: Seq<char>) -> Seq<char> {
    if registry.len() == 0 {
        "docker.io"@
    } else {
        registry
    }
}

/// A registry host for building event payloads: an empty host names the
/// default public registry.
pub fn extract_registry(registry: &str) -> (r: String)
    ensures
        r@ == spec_extract_registry(registry@),
{
    if registry.unicode_len() == 0 {
        String::from_str("docker.io")
    } else {
        String::from_str(registry)
    }
}

/// `image:tag`, rebuilt.
pub fn image_with_tag(image: &str, tag: &str) -> (r: String)
    ensures
        r@ == image@ + seq![':'] + tag@,
{
    let mut s = String::from_str(image);
    s.push(':');
    s.append(tag);
    proof {
        assert(s@ =~= image@ + seq![':'] + tag@);
    }
    s
}

} // verus!
