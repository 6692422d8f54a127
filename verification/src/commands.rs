//! The native command handlers exposed to the frontend. Only one exists:
//! `get_system_info`, which returns a product banner carrying the build-time
//! version identifier. It has no side effects and cannot fail.

use vstd::prelude::*;

verus! {

/// The build-time version identifier embedded in the banner.
pub open spec fn version_text() -> Seq<char> {
    "1.0.0"@
}

/// The fixed prefix of the system-info banner.
pub open spec fn info_prefix() -> Seq<char> {
    "SocialAi Admin v"@
}

/// What `get_system_info` returns: the prefix followed by the version.
pub open spec fn system_info_text() -> Seq<char> {
    info_prefix() + version_text()
}

/// The embedded version identifier, as a string.
pub fn version() -> (r: String)
    ensures
        r@ == version_text(),
{
    String::from_str("1.0.0")
}

/// The `get_system_info` handler: a banner naming the product and its
/// version. It takes no arguments and always succeeds.
pub fn get_system_info() -> (r: String)
    ensures
        r@ == system_info_text(),
{
    let banner = String::from_str("SocialAi Admin v");
    let v = version();
    banner.concat(v.as_str())
}

/// Law: the system-info banner starts with `"SocialAi Admin v"` and is
/// followed by a non-empty version token.
pub proof fn lemma_banner_prefixed_by_product_name()
    ensures
        version_text().len() > 0,
        system_info_text().len() > info_prefix().len(),
        system_info_text().subrange(0, info_prefix().len() as int) == info_prefix(),
{
    reveal_strlit("1.0.0");
    reveal_strlit("SocialAi Admin v");
    assert(system_info_text().subrange(0, info_prefix().len() as int) =~= info_prefix());
}

} // verus!
