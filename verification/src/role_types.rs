use vstd::prelude::*;

use crate::error::ApiError;
use crate::slug::{slugify, spec_slugify};
use crate::text::{byte_count, byte_len, owned, str_eq, trim, trimmed};

verus! {

/// Longest label of an upline role type, in UTF-8 bytes.
pub const MAX_ROLE_LABEL_BYTES: usize = 100;

/// Longest portal path, in UTF-8 bytes.
pub const MAX_PORTAL_PATH_BYTES: usize = 40;

/// What `str::to_lowercase` makes of a text: each character replaced by its
/// Unicode lowercase mapping (which may be several characters).
pub uninterp spec fn str_lowercase(s: Seq<char>) -> Seq<char>;

/// Lowercase form of `s`.
///
/// Calls `str::to_lowercase`; the result is left to the name `str_lowercase`.
#[verifier::external_body]
fn lowercase(s: &str) -> (r: String)
    ensures
        r@ == str_lowercase(s@),
{
    s.to_lowercase()
}

/// Labels of the fixed system roles, which no upline role type may take.
pub open spec fn is_reserved_label(s: Seq<char>) -> bool {
    s == "Agent"@ || s == "User"@ || s == "Admin"@
}

/// Portal paths taken by the application's own pages.
pub open spec fn is_reserved_portal_path(s: Seq<char>) -> bool {
    s == "admin"@ || s == "buyer"@ || s == "agent"@ || s == "login"@ || s == "forgot-password"@
        || s == "about-us"@ || s == "contact-us"@ || s == "properties"@ || s == "profile"@
}

/// An ASCII lowercase letter or digit.
pub open spec fn is_path_char(c: char) -> bool {
    ('a' <= c && c <= 'z') || ('0' <= c && c <= '9')
}

/// A portal path: 1 to 40 bytes of lowercase letters and digits.
pub open spec fn is_portal_path(s: Seq<char>) -> bool {
    &&& s.len() > 0
    &&& byte_count(s) <= MAX_PORTAL_PATH_BYTES
    &&& forall|i: int| 0 <= i < s.len() ==> is_path_char(#[trigger] s[i])
}

/// Checks an already normalized portal path.
pub fn validate_portal_path(portal_path: &str) -> (r: Result<(), ApiError>)
    ensures
        r is Ok <==> is_portal_path(portal_path@),
        r is Err ==> r == Err::<(), ApiError>(ApiError::PortalPathInvalid),
{
    if portal_path.is_empty() || byte_len(portal_path) > MAX_PORTAL_PATH_BYTES {
        return Err(ApiError::PortalPathInvalid);
    }
    let n = portal_path.unicode_len();
    let mut i: usize = 0;
    while i < n
        invariant
            n == portal_path@.len(),
            i <= n,
            forall|k: int| 0 <= k < i ==> is_path_char(#[trigger] portal_path@[k]),
        decreases n - i,
    {
        let c = portal_path.get_char(i);
        if !(('a' <= c && c <= 'z') || ('0' <= c && c <= '9')) {
            assert(!is_path_char(portal_path@[i as int]));
            return Err(ApiError::PortalPathInvalid);
        }
        i = i + 1;
    }
    Ok(())
}

/// Whether `path` is a reserved portal path.
pub fn portal_path_reserved(path: &str) -> (r: bool)
    ensures
        r == is_reserved_portal_path(path@),
{
    str_eq(path, "admin") || str_eq(path, "buyer") || str_eq(path, "agent") || str_eq(path, "login")
        || str_eq(path, "forgot-password") || str_eq(path, "about-us") || str_eq(path, "contact-us")
        || str_eq(path, "properties") || str_eq(path, "profile")
}

/// Why a normalized portal path is refused, if it is.
pub open spec fn spec_portal_path_error(path: Seq<char>) -> Option<ApiError> {
    if !is_portal_path(path) {
        Some(ApiError::PortalPathInvalid)
    } else if is_reserved_portal_path(path) {
        Some(ApiError::PortalPathReserved)
    } else {
        None
    }
}

/// Checks a normalized (trimmed, lowercased) portal path: its form, then
/// that it is not reserved.
pub fn check_portal_path(path: &str) -> (r: Result<(), ApiError>)
    ensures
        match r {
            Ok(_) => spec_portal_path_error(path@) is None,
            Err(e) => spec_portal_path_error(path@) == Some(e),
        },
{
    match validate_portal_path(path) {
        Err(e) => Err(e),
        Ok(_) => {
            if portal_path_reserved(path) {
                Err(ApiError::PortalPathReserved)
            } else {
                Ok(())
            }
        },
    }
}

/// Normalized form of a requested portal path: trimmed and lowercased.
pub open spec fn spec_normalized_portal_path(raw: Seq<char>) -> Seq<char> {
    str_lowercase(trimmed(raw))
}

/// Normalizes a requested portal path and checks it.
pub fn normalize_portal_path(raw: &str) -> (r: Result<String, ApiError>)
    ensures
        match r {
            Ok(p) => p@ == spec_normalized_portal_path(raw@) && spec_portal_path_error(p@) is None,
            Err(e) => spec_portal_path_error(spec_normalized_portal_path(raw@)) == Some(e),
        },
{
    let path = lowercase(trim(raw));
    match check_portal_path(path.as_str()) {
        Ok(_) => Ok(path),
        Err(e) => Err(e),
    }
}

/// The stored identity of a new upline role type.
pub struct RoleTypeFields {
    pub slug: String,
    pub label: String,
    pub portal_path: String,
}

/// Why a new upline role type is refused, if it is, in the order the checks
/// run. The percent checks come in as booleans (within 0..=100 and finite).
pub open spec fn spec_new_role_type_error(
    label: Seq<char>,
    base_percent_ok: bool,
    pool_percent_ok: bool,
    normalized_path: Seq<char>,
) -> Option<ApiError> {
    let l = trimmed(label);
    if l.len() == 0 || byte_count(l) > MAX_ROLE_LABEL_BYTES {
        Some(ApiError::InvalidLabel)
    } else if is_reserved_label(l) {
        Some(ApiError::LabelReserved)
    } else if !base_percent_ok {
        Some(ApiError::BasePercentOutOfRange)
    } else if !pool_percent_ok {
        Some(ApiError::DirectSalePoolOutOfRange)
    } else if spec_portal_path_error(normalized_path) is Some {
        spec_portal_path_error(normalized_path)
    } else if spec_slugify(l).len() == 0 {
        Some(ApiError::InvalidLabel)
    } else {
        None
    }
}

/// Checks a new upline role type and derives its slug from the trimmed label.
pub fn validate_new_role_type(
    label: &str,
    base_percent_ok: bool,
    pool_percent_ok: bool,
    portal_path: &str,
) -> (r: Result<RoleTypeFields, ApiError>)
    ensures
        match r {
            Ok(f) => {
                &&& spec_new_role_type_error(
                    label@,
                    base_percent_ok,
                    pool_percent_ok,
                    spec_normalized_portal_path(portal_path@),
                ) is None
                &&& f.label@ == trimmed(label@)
                &&& f.slug@ == spec_slugify(trimmed(label@))
                &&& f.portal_path@ == spec_normalized_portal_path(portal_path@)
            },
            Err(e) => spec_new_role_type_error(
                label@,
                base_percent_ok,
                pool_percent_ok,
                spec_normalized_portal_path(portal_path@),
            ) == Some(e),
        },
{
    let l = trim(label);
    if l.is_empty() || byte_len(l) > MAX_ROLE_LABEL_BYTES {
        return Err(ApiError::InvalidLabel);
    }
    if str_eq(l, "Agent") || str_eq(l, "User") || str_eq(l, "Admin") {
        return Err(ApiError::LabelReserved);
    }
    if !base_percent_ok {
        return Err(ApiError::BasePercentOutOfRange);
    }
    if !pool_percent_ok {
        return Err(ApiError::DirectSalePoolOutOfRange);
    }
    let path = match normalize_portal_path(portal_path) {
        Ok(p) => p,
        Err(e) => {
            return Err(e);
        },
    };
    let slug = slugify(l);
    if slug.as_str().is_empty() {
        return Err(ApiError::InvalidLabel);
    }
    Ok(RoleTypeFields { slug, label: owned(l), portal_path: path })
}

/// Why an edit of an upline role type is refused, if it is.
pub open spec fn spec_role_type_update_error(
    base_percent_ok: bool,
    pool_percent_ok: bool,
    normalized_path: Seq<char>,
) -> Option<ApiError> {
    if !base_percent_ok {
        Some(ApiError::BasePercentOutOfRange)
    } else if !pool_percent_ok {
        Some(ApiError::DirectSalePoolOutOfRange)
    } else {
        spec_portal_path_error(normalized_path)
    }
}

/// Checks an edit of an upline role type; gives back the portal path to store.
pub fn validate_role_type_update(
    base_percent_ok: bool,
    pool_percent_ok: bool,
    portal_path: &str,
) -> (r: Result<String, ApiError>)
    ensures
        match r {
            Ok(p) => spec_role_type_update_error(
                base_percent_ok,
                pool_percent_ok,
                spec_normalized_portal_path(portal_path@),
            ) is None && p@ == spec_normalized_portal_path(portal_path@),
            Err(e) => spec_role_type_update_error(
                base_percent_ok,
                pool_percent_ok,
                spec_normalized_portal_path(portal_path@),
            ) == Some(e),
        },
{
    if !base_percent_ok {
        return Err(ApiError::BasePercentOutOfRange);
    }
    if !pool_percent_ok {
        return Err(ApiError::DirectSalePoolOutOfRange);
    }
    normalize_portal_path(portal_path)
}

/// A role type may be deleted only once no roster member holds it.
pub fn check_role_type_deletable(in_use: bool) -> (r: Result<(), ApiError>)
    ensures
        r == (if in_use {
            Err(ApiError::RoleTypeInUse)
        } else {
            Ok::<(), ApiError>(())
        }),
{
    if in_use {
        Err(ApiError::RoleTypeInUse)
    } else {
        Ok(())
    }
}

} // verus!
