//! The text format of the version file: `<release>:<patch number>`.

use vstd::prelude::*;
use crate::decimal::{decimal_string, parse_u32, parse_u32_chars, push_decimal, lemma_decimal_string};
use crate::text::{chars_of, push_char, skip_chars, string_from_chars, take_chars};
use crate::types::LibVersion;

verus! {

/// The index of the first `:` in `s` (meaningful when `s` contains one).
pub open spec fn first_colon(s: Seq<char>) -> int {
    choose|i: int| 0 <= i < s.len() && s[i] == ':' && forall|j: int| 0 <= j < i ==> s[j] != ':'
}

/// The text of `s` up to its first `:`, or all of `s` when it has none
/// (the first piece of `s.split(":")`).
pub open spec fn before_colon(s: Seq<char>) -> Seq<char> {
    if s.contains(':') {
        s.take(first_colon(s))
    } else {
        s
    }
}

/// The text after the first `:` of `s`.
pub open spec fn after_colon(s: Seq<char>) -> Seq<char> {
    s.skip(first_colon(s) + 1)
}

/// The version file's text for a release and patch number.
pub open spec fn version_text(release: Seq<char>, patch_number: u32) -> Seq<char> {
    release + seq![':'] + decimal_string(patch_number as nat)
}

/// The release and patch number that a version file's text holds: the
/// release is the text before the first `:`, the number is the second
/// `:`-separated field read as a `u32`. `None` where that field is no `u32`.
pub open spec fn parse_version_text(text: Seq<char>) -> Option<(Seq<char>, u32)>
    recommends
        text.contains(':'),
{
    match parse_u32(before_colon(after_colon(text))) {
        Some(n) => Some((before_colon(text), n)),
        None => None,
    }
}

/// Why a version file's text was refused.
#[derive(Debug, PartialEq, Eq)]
pub enum VersionFileError {
    /// The second field is not a decimal `u32`.
    InvalidPatchNumber,
}

proof fn lemma_first_colon(s: Seq<char>, i: int)
    requires
        0 <= i < s.len(),
        s[i] == ':',
        forall|j: int| 0 <= j < i ==> s[j] != ':',
    ensures
        s.contains(':'),
        first_colon(s) == i,
{
    assert(s[i] == ':');
    let k = first_colon(s);
    if k < i {
        assert(s[k] != ':');
    } else if k > i {
        assert(s[i] != ':');
    }
}

/// Splits `v` at its first `:`: the index of that `:`, or `v.len()` if none.
fn find_colon(v: &[char]) -> (r: usize)
    ensures
        r <= v@.len(),
        r < v@.len() ==> v@.contains(':') && first_colon(v@) == r,
        r == v@.len() ==> !v@.contains(':'),
        before_colon(v@) == v@.take(r as int),
{
    let n = v.len();
    let mut i: usize = 0;
    while i < n
        invariant
            i <= n,
            n == v@.len(),
            forall|j: int| 0 <= j < i ==> v@[j] != ':',
        decreases n - i,
    {
        if v[i] == ':' {
            proof {
                lemma_first_colon(v@, i as int);
            }
            return i;
        }
        i = i + 1;
    }
    assert(v@.take(n as int) =~= v@);
    i
}

impl LibVersion {
    /// The version file's text: the release, `:`, and the patch number.
    pub fn to_file_content(&self) -> (s: String)
        ensures
            s@ == version_text(self.release_version@, self.patch_number),
    {
        let mut s = self.release_version.clone();
        push_char(&mut s, ':');
        push_decimal(&mut s, self.patch_number);
        assert(s@ =~= version_text(self.release_version@, self.patch_number));
        s
    }

    /// Reads a version file's text. The text must hold a `:` (the release
    /// is what precedes the first one); the patch number is the next field.
    pub fn from_file_content(content: &str) -> (r: Result<LibVersion, VersionFileError>)
        requires
            content@.contains(':'),
        ensures
            match r {
                Ok(v) => parse_version_text(content@) == Some((v.release_version@, v.patch_number)),
                Err(e) => parse_version_text(content@) is None && e == VersionFileError::InvalidPatchNumber,
            },
    {
        let chars = chars_of(content);
        let k = find_colon(chars.as_slice());
        let release = string_from_chars(take_chars(chars.as_slice(), k).as_slice());
        let rest = skip_chars(chars.as_slice(), k + 1);
        let m = find_colon(rest.as_slice());
        let field = take_chars(rest.as_slice(), m);
        match parse_u32_chars(field.as_slice()) {
            Some(patch_number) => Ok(LibVersion { release_version: release, patch_number }),
            None => Err(VersionFileError::InvalidPatchNumber),
        }
    }
}

/// Writing a version and reading the text back gives the same version,
/// whenever the release holds no `:`.
pub proof fn lemma_version_text_roundtrip(release: Seq<char>, patch_number: u32)
    requires
        !release.contains(':'),
    ensures
        version_text(release, patch_number).contains(':'),
        parse_version_text(version_text(release, patch_number)) == Some((release, patch_number)),
{
    let t = version_text(release, patch_number);
    let d = decimal_string(patch_number as nat);
    lemma_decimal_string(patch_number as nat);
    let i = release.len() as int;
    assert forall|j: int| 0 <= j < i implies t[j] != ':' by {
        assert(t[j] == release[j]);
        if t[j] == ':' {
            assert(release.contains(':'));
        }
    }
    assert(t[i] == ':');
    lemma_first_colon(t, i);
    assert(before_colon(t) =~= release);
    assert(after_colon(t) =~= d);
    assert(before_colon(d) =~= d);
    crate::decimal::lemma_parse_decimal_string(patch_number);
}

} // verus!
