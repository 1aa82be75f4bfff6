//! Settings of the session cookie that the library itself interprets.

use vstd::prelude::*;

verus! {

/// The `SameSite` attribute of the session cookie.
#[derive(Clone, Copy, Debug, PartialEq, Eq, Structural)]
pub enum SameSite {
    /// Sent on same-site requests and on top-level cross-site navigation.
    Lax,
    /// Sent on same-site requests only.
    Strict,
    /// Sent on every request; written `none` in settings and cookies.
    Unrestricted,
}

/// What `str::to_lowercase` makes of `s`.
pub uninterp spec fn lower_of(s: Seq<char>) -> Seq<char>;

/// Relies on `str::to_lowercase`: the lowercase form of `s`, which depends on
/// the characters of `s` alone.
#[verifier::external_body]
fn lowercase(s: &str) -> (r: String)
    ensures
        r@ == lower_of(s@),
{
    s.to_lowercase()
}

/// The setting that the already lowercased name `lower` stands for.
pub open spec fn same_site_named(lower: Seq<char>) -> Option<SameSite> {
    if lower == "lax"@ {
        Some(SameSite::Lax)
    } else if lower == "strict"@ {
        Some(SameSite::Strict)
    } else if lower == "none"@ {
        Some(SameSite::Unrestricted)
    } else {
        None
    }
}

/// The setting named by `lower`, a name already in lowercase: `lax`,
/// `strict` or `none`; nothing for any other text.
pub fn same_site_from_lowercase(lower: &str) -> (r: Option<SameSite>)
    ensures
        r == same_site_named(lower@),
{
    let name = lower.to_owned();
    proof {
        reveal_strlit("lax");
        reveal_strlit("strict");
        reveal_strlit("none");
    }
    if name == "lax".to_owned() {
        Some(SameSite::Lax)
    } else if name == "strict".to_owned() {
        Some(SameSite::Strict)
    } else if name == "none".to_owned() {
        Some(SameSite::Unrestricted)
    } else {
        None
    }
}

/// The setting named by `s` in any letter case (`Lax`, `STRICT`, `none`);
/// nothing for any other text.
pub fn parse_same_site(s: &str) -> (r: Option<SameSite>)
    ensures
        r == same_site_named(lower_of(s@)),
{
    let lower = lowercase(s);
    same_site_from_lowercase(lower.as_str())
}

} // verus!
