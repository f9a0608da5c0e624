//! The supported raster format tags, their canonical names, and the
//! resolver that maps a filename to a tag by its `.`-delimited suffix.

use vstd::prelude::*;

use crate::error::ConversionError;

verus! {

/// A raster image format recognized by filename suffix.
///
/// `jpg` and `jpeg` both resolve to `Jpeg`; the canonical rendering of that
/// tag is always `jpeg`.
#[derive(Debug, PartialEq, Eq, Structural, Clone, Copy)]
pub enum Extension {
    Png,
    Jpeg,
    Webp,
}

/// Canonical lowercase rendering of a format tag.
pub open spec fn name_of(t: Extension) -> Seq<char> {
    match t {
        Extension::Png => "png"@,
        Extension::Jpeg => "jpeg"@,
        Extension::Webp => "webp"@,
    }
}

impl Extension {
    /// The canonical lowercase name: `png`, `jpeg` or `webp` (never `jpg`).
    pub fn name(&self) -> (r: String)
        ensures
            r@ == name_of(*self),
    {
        match self {
            Extension::Png => String::from_str("png"),
            Extension::Jpeg => String::from_str("jpeg"),
            Extension::Webp => String::from_str("webp"),
        }
    }
}

/// Every format tag renders as exactly one of `png`, `jpeg`, `webp`,
/// and never as the alias spelling `jpg`.
pub proof fn lemma_rendering_canonical(t: Extension)
    ensures
        name_of(t) == "png"@ || name_of(t) == "jpeg"@ || name_of(t) == "webp"@,
        name_of(t) != "jpg"@,
{
    reveal_strlit("png");
    reveal_strlit("jpeg");
    reveal_strlit("webp");
    reveal_strlit("jpg");
    match t {
        Extension::Png => {
            assert(name_of(t)[0] == 'p' && "jpg"@[0] == 'j');
        },
        Extension::Jpeg => {
            assert(name_of(t).len() == 4 && "jpg"@.len() == 3);
        },
        Extension::Webp => {
            assert(name_of(t)[0] == 'w' && "jpg"@[0] == 'j');
        },
    }
}

/// The `.`-delimited suffix of a path: the characters after the last dot,
/// or `None` when the path holds no dot at all.
pub open spec fn suffix_after_last_dot(s: Seq<char>) -> Option<Seq<char>>
    decreases s.len(),
{
    if s.len() == 0 {
        None
    } else if s.last() == '.' {
        Some(Seq::<char>::empty())
    } else {
        match suffix_after_last_dot(s.drop_last()) {
            None => None,
            Some(e) => Some(e.push(s.last())),
        }
    }
}

/// The format tag a suffix token resolves to, if it is supported. Matching
/// is case-sensitive: `PNG` is not a supported token.
pub open spec fn tag_of(token: Seq<char>) -> Option<Extension> {
    if token == "png"@ {
        Some(Extension::Png)
    } else if token == "jpg"@ {
        Some(Extension::Jpeg)
    } else if token == "jpeg"@ {
        Some(Extension::Jpeg)
    } else if token == "webp"@ {
        Some(Extension::Webp)
    } else {
        None
    }
}

/// What resolving a path must return: the tag of its suffix when that
/// suffix is a supported token, `NoExtension` carrying the path when there
/// is no suffix, and `UnsupportedExtension` carrying the token otherwise.
pub open spec fn resolves_to(s: Seq<char>, r: Result<Extension, ConversionError>) -> bool {
    match suffix_after_last_dot(s) {
        None => r matches Err(ConversionError::NoExtension(p)) && p@ == s,
        Some(tok) => match tag_of(tok) {
            Some(t) => r == Ok::<Extension, ConversionError>(t),
            None => r matches Err(ConversionError::UnsupportedExtension(u)) && u@ == tok,
        },
    }
}

/// A path without any dot has no suffix.
pub proof fn lemma_no_dot_no_suffix(s: Seq<char>)
    requires
        forall|j: int| 0 <= j < s.len() ==> s[j] != '.',
    ensures
        suffix_after_last_dot(s) is None,
    decreases s.len(),
{
    if s.len() > 0 {
        assert(s.last() != '.');
        assert(forall|j: int| 0 <= j < s.drop_last().len() ==> s.drop_last()[j] != '.');
        lemma_no_dot_no_suffix(s.drop_last());
    }
}

/// When the last dot of a path stands at index `k`, the suffix is exactly
/// the characters that follow it.
pub proof fn lemma_suffix_from_last_dot(s: Seq<char>, k: int)
    requires
        0 <= k < s.len(),
        s[k] == '.',
        forall|j: int| k < j < s.len() ==> s[j] != '.',
    ensures
        suffix_after_last_dot(s) == Some(s.subrange(k + 1, s.len() as int)),
    decreases s.len(),
{
    if k == s.len() - 1 {
        assert(s.last() == '.');
        assert(s.subrange(k + 1, s.len() as int) =~= Seq::<char>::empty());
    } else {
        assert(s.last() != '.');
        assert(forall|j: int| k < j < s.drop_last().len() ==> s.drop_last()[j] != '.');
        lemma_suffix_from_last_dot(s.drop_last(), k);
        assert(s.subrange(k + 1, s.len() as int) =~= s.drop_last().subrange(
            k + 1,
            s.len() - 1,
        ).push(s.last()));
    }
}

/// Character-by-character string equality, proved against the views.
fn str_eq(a: &str, b: &str) -> (r: bool)
    ensures
        r == (a@ == b@),
{
    let na = a.unicode_len();
    let nb = b.unicode_len();
    if na != nb {
        return false;
    }
    let mut i: usize = 0;
    while i < na
        invariant
            na == a@.len(),
            na == b@.len(),
            i <= na,
            forall|j: int| 0 <= j < i ==> a@[j] == b@[j],
        decreases na - i,
    {
        if a.get_char(i) != b.get_char(i) {
            return false;
        }
        i += 1;
    }
    proof {
        assert(a@ =~= b@);
    }
    true
}

/// Maps a filename to its format tag. The candidate extension is the
/// segment after the last `.`; a path without a dot is rejected with
/// `NoExtension`, an unrecognized token with `UnsupportedExtension`.
pub fn resolve(path: &str) -> (r: Result<Extension, ConversionError>)
    ensures
        resolves_to(path@, r),
{
    let n = path.unicode_len();
    let mut i: usize = 0;
    let mut last_dot: Option<usize> = None;
    while i < n
        invariant
            n == path@.len(),
            i <= n,
            last_dot is None ==> forall|j: int| 0 <= j < i ==> path@[j] != '.',
            last_dot matches Some(k) ==> k < i && path@[k as int] == '.' && (forall|j: int|
                k < j < i ==> path@[j] != '.'),
        decreases n - i,
    {
        if path.get_char(i) == '.' {
            last_dot = Some(i);
        }
        i += 1;
    }
    match last_dot {
        None => {
            proof {
                lemma_no_dot_no_suffix(path@);
            }
            Err(ConversionError::NoExtension(String::from_str(path)))
        },
        Some(k) => {
            proof {
                lemma_suffix_from_last_dot(path@, k as int);
            }
            let tok = path.substring_char(k + 1, n);
            if str_eq(tok, "png") {
                Ok(Extension::Png)
            } else if str_eq(tok, "jpg") {
                Ok(Extension::Jpeg)
            } else if str_eq(tok, "jpeg") {
                Ok(Extension::Jpeg)
            } else if str_eq(tok, "webp") {
                Ok(Extension::Webp)
            } else {
                Err(ConversionError::UnsupportedExtension(String::from_str(tok)))
            }
        },
    }
}

/// The supported tokens are `png`, `jpg`, `jpeg` and `webp`, and the two
/// alias spellings `jpg` and `jpeg` map to the same tag.
pub proof fn lemma_supported_tokens()
    ensures
        tag_of("png"@) == Some(Extension::Png),
        tag_of("jpg"@) == Some(Extension::Jpeg),
        tag_of("jpeg"@) == Some(Extension::Jpeg),
        tag_of("webp"@) == Some(Extension::Webp),
        tag_of("jpg"@) == tag_of("jpeg"@),
{
    reveal_strlit("png");
    reveal_strlit("jpg");
    reveal_strlit("jpeg");
    reveal_strlit("webp");
    assert("jpg"@[0] == 'j' && "png"@[0] == 'p');
    assert("jpeg"@.len() == 4 && "png"@.len() == 3 && "jpg"@.len() == 3);
    assert("webp"@[0] == 'w' && "jpeg"@[0] == 'j');
}

/// A path whose suffix is a supported token resolves successfully, to
/// exactly that token's tag.
pub proof fn lemma_supported_suffix_resolves(s: Seq<char>, r: Result<Extension, ConversionError>)
    requires
        resolves_to(s, r),
        suffix_after_last_dot(s) matches Some(tok) && tag_of(tok) is Some,
    ensures
        r == Ok::<Extension, ConversionError>(tag_of(suffix_after_last_dot(s)->0)->0),
{
}

/// A path without any `.` character — the empty string included — is
/// rejected with `NoExtension`, carrying the path itself.
pub proof fn lemma_no_dot_rejected(s: Seq<char>, r: Result<Extension, ConversionError>)
    requires
        forall|j: int| 0 <= j < s.len() ==> s[j] != '.',
        resolves_to(s, r),
    ensures
        r matches Err(ConversionError::NoExtension(p)) && p@ == s,
{
    lemma_no_dot_no_suffix(s);
}

/// Only the final `.`-delimited segment determines the outcome: two paths
/// with the same suffix resolve alike — to the same tag on success, and
/// with the same offending token on failure.
pub proof fn lemma_final_segment_decides(
    a: Seq<char>,
    b: Seq<char>,
    ra: Result<Extension, ConversionError>,
    rb: Result<Extension, ConversionError>,
)
    requires
        suffix_after_last_dot(a) is Some,
        suffix_after_last_dot(a) == suffix_after_last_dot(b),
        resolves_to(a, ra),
        resolves_to(b, rb),
    ensures
        ra is Ok <==> rb is Ok,
        ra is Ok ==> ra == rb,
        ra matches Err(ConversionError::UnsupportedExtension(u)) ==> rb matches Err(
            ConversionError::UnsupportedExtension(v),
        ) && v@ == u@,
{
}

impl core::str::FromStr for Extension {
    type Err = ConversionError;

    fn from_str(s: &str) -> (r: Result<Extension, ConversionError>) {
        resolve(s)
    }
}

} // verus!
