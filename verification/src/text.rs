//! Text operations of the standard library that the commands rely on,
//! each with the part of its documented behaviour that callers use.

use vstd::prelude::*;
use vstd::utf8::{decode_utf8, valid_utf8};

verus! {

/// Whether a character has the Unicode `White_Space` property, which is
/// what `char::is_whitespace` tests: the tab, the line and page breaks,
/// the spaces of every width, and the line and paragraph separators that
/// the Unicode Character Database lists under that name.
pub open spec fn is_whitespace(c: char) -> bool {
    let code = c as u32;
    ||| 0x0009 <= code <= 0x000d
    ||| code == 0x0020
    ||| code == 0x0085
    ||| code == 0x00a0
    ||| code == 0x1680
    ||| 0x2000 <= code <= 0x200a
    ||| code == 0x2028
    ||| code == 0x2029
    ||| code == 0x202f
    ||| code == 0x205f
    ||| code == 0x3000
}

/// What `String::from_utf8_lossy` makes of a byte string: the text it
/// encodes, with every malformed part replaced by U+FFFD.
pub uninterp spec fn lossy_utf8(bytes: Seq<u8>) -> Seq<char>;

/// What `Path::parent` makes of a path on the platform the crate is built
/// for: the path without its final component, or nothing if there is none.
pub uninterp spec fn path_parent(path: Seq<char>) -> Option<Seq<char>>;

/// What `Path::join` makes of two paths on the platform the crate is
/// built for: `relative` adjoined to `base`, or `relative` alone where it
/// is absolute.
pub uninterp spec fn path_join(base: Seq<char>, relative: Seq<char>) -> Seq<char>;

/// Number of whitespace characters at the front of `s`.
pub open spec fn leading_whitespace(s: Seq<char>) -> nat
    decreases s.len(),
{
    if s.len() > 0 && is_whitespace(s[0]) {
        1 + leading_whitespace(s.drop_first())
    } else {
        0
    }
}

/// Number of whitespace characters at the back of `s`.
pub open spec fn trailing_whitespace(s: Seq<char>) -> nat
    decreases s.len(),
{
    if s.len() > 0 && is_whitespace(s.last()) {
        1 + trailing_whitespace(s.drop_last())
    } else {
        0
    }
}

/// `s` without its leading and trailing whitespace.
pub open spec fn trim_of(s: Seq<char>) -> Seq<char> {
    let rest = s.skip(leading_whitespace(s) as int);
    rest.take(rest.len() - trailing_whitespace(rest))
}

/// Calls `str::trim` and copies the slice it returns. The contract claims
/// that the result is a stretch of the input with nothing but whitespace
/// before and behind it, and that it neither starts nor ends with
/// whitespace, where whitespace is the Unicode `White_Space` property.
#[verifier::external_body]
fn str_trim(s: &str) -> (r: String)
    ensures
        exists|i: int|
            0 <= i <= s@.len() - r@.len() && r@ == #[trigger] s@.subrange(i, i + r@.len())
                && forall|k: int|
                0 <= k < i || i + r@.len() <= k < s@.len() ==> is_whitespace(#[trigger] s@[k]),
        r@.len() > 0 ==> !is_whitespace(r@.first()) && !is_whitespace(r@.last()),
{
    s.trim().to_owned()
}

/// A text that starts with `i` whitespace characters and then ends or
/// goes on with another character has `i` leading whitespace characters.
proof fn lemma_leading_whitespace(s: Seq<char>, i: int)
    requires
        0 <= i <= s.len(),
        forall|k: int| 0 <= k < i ==> is_whitespace(#[trigger] s[k]),
        i < s.len() ==> !is_whitespace(s[i]),
    ensures
        leading_whitespace(s) == i,
    decreases i,
{
    if i > 0 {
        let rest = s.drop_first();
        assert forall|k: int| 0 <= k < i - 1 implies is_whitespace(#[trigger] rest[k]) by {
            assert(rest[k] == s[k + 1]);
        }
        if i < s.len() {
            assert(rest[i - 1] == s[i]);
        }
        lemma_leading_whitespace(rest, i - 1);
    }
}

/// A text that ends with whitespace from `j` on, and before that starts
/// or has another character, has as many trailing whitespace characters
/// as stand from `j` on.
proof fn lemma_trailing_whitespace(s: Seq<char>, j: int)
    requires
        0 <= j <= s.len(),
        forall|k: int| j <= k < s.len() ==> is_whitespace(#[trigger] s[k]),
        0 < j ==> !is_whitespace(s[j - 1]),
    ensures
        trailing_whitespace(s) == s.len() - j,
    decreases s.len() - j,
{
    if j < s.len() {
        let rest = s.drop_last();
        assert forall|k: int| j <= k < rest.len() implies is_whitespace(#[trigger] rest[k]) by {
            assert(rest[k] == s[k]);
        }
        if 0 < j {
            assert(rest[j - 1] == s[j - 1]);
        }
        assert(is_whitespace(s[s.len() - 1]));
        lemma_trailing_whitespace(rest, j);
    }
}

/// The stretch from `i` to `j` of a text is the text without its leading
/// and trailing whitespace when nothing but whitespace stands outside it
/// and it neither starts nor ends with whitespace.
pub proof fn lemma_trim(s: Seq<char>, i: int, j: int)
    requires
        0 <= i <= j <= s.len(),
        forall|k: int| 0 <= k < i ==> is_whitespace(#[trigger] s[k]),
        forall|k: int| j <= k < s.len() ==> is_whitespace(#[trigger] s[k]),
        i < j ==> !is_whitespace(s[i]) && !is_whitespace(s[j - 1]),
    ensures
        trim_of(s) == s.subrange(i, j),
{
    if i < j {
        lemma_leading_whitespace(s, i);
        let rest = s.skip(i);
        assert forall|k: int| j - i <= k < rest.len() implies is_whitespace(#[trigger] rest[k]) by {
            assert(rest[k] == s[i + k]);
        }
        assert(rest[j - i - 1] == s[j - 1]);
        lemma_trailing_whitespace(rest, j - i);
        assert(rest.take(j - i) =~= s.subrange(i, j));
    } else {
        assert forall|k: int| 0 <= k < s.len() implies is_whitespace(#[trigger] s[k]) by {
            if k < i {
            } else {
                assert(j <= k);
            }
        }
        lemma_leading_whitespace(s, s.len() as int);
        let rest = s.skip(s.len() as int);
        assert(rest.len() == 0);
        assert(trim_of(s) =~= s.subrange(i, j));
    }
}

/// Removes leading and trailing whitespace.
pub fn trimmed(s: &str) -> (r: String)
    ensures
        r@ == trim_of(s@),
{
    let r = str_trim(s);
    proof {
        let i = choose|i: int|
            0 <= i <= s@.len() - r@.len() && r@ == #[trigger] s@.subrange(i, i + r@.len())
                && forall|k: int|
                0 <= k < i || i + r@.len() <= k < s@.len() ==> is_whitespace(#[trigger] s@[k]);
        lemma_trim(s@, i, i + r@.len());
    }
    r
}

/// Calls `String::from_utf8_lossy`. The contract names the result and
/// claims that bytes which are valid UTF-8 give the text they encode.
#[verifier::external_body]
pub(crate) fn lossy_text(bytes: &Vec<u8>) -> (r: String)
    ensures
        r@ == lossy_utf8(bytes@),
        valid_utf8(bytes@) ==> r@ == decode_utf8(bytes@),
{
    String::from_utf8_lossy(bytes).into_owned()
}

/// Calls `Path::parent` on the path that `path` spells and spells the
/// result out again. The contract only names the result.
#[verifier::external_body]
pub(crate) fn parent_dir(path: &str) -> (r: Option<String>)
    ensures
        match r {
            Some(p) => path_parent(path@) == Some(p@),
            None => path_parent(path@) is None,
        },
{
    std::path::Path::new(path).parent().map(|p| p.to_string_lossy().into_owned())
}

/// Calls `Path::join` on the paths that `base` and `relative` spell and
/// spells the result out again. The contract only names the result.
#[verifier::external_body]
pub(crate) fn joined(base: &str, relative: &str) -> (r: String)
    ensures
        r@ == path_join(base@, relative@),
{
    std::path::Path::new(base).join(relative).to_string_lossy().into_owned()
}

} // verus!
