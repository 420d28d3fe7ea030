//! Address text: prefixes, blank input, and the default scheme.

use vstd::prelude::*;
use vstd::string::*;

verus! {

/// Whether `s` begins with `prefix`, character by character.
pub fn has_prefix(s: &str, prefix: &str) -> (b: bool)
    ensures
        b == prefix@.is_prefix_of(s@),
{
    let n: usize = prefix.unicode_len();
    let m: usize = s.unicode_len();
    if n > m {
        return false;
    }
    let mut i: usize = 0;
    while i < n
        invariant
            n == prefix@.len(),
            m == s@.len(),
            n <= m,
            i <= n,
            forall|k: int| 0 <= k < i ==> s@[k] == prefix@[k],
        decreases n - i,
    {
        if s.get_char(i) != prefix.get_char(i) {
            assert(s@.subrange(0, n as int)[i as int] != prefix@[i as int]);
            return false;
        }
        i += 1;
    }
    assert(s@.subrange(0, n as int) =~= prefix@);
    true
}

/// The white-space characters of Unicode, by code point.
pub open spec fn is_space(c: char) -> bool {
    let n = c as u32;
    ||| 0x09 <= n <= 0x0D
    ||| n == 0x20
    ||| n == 0x85
    ||| n == 0xA0
    ||| n == 0x1680
    ||| 0x2000 <= n <= 0x200A
    ||| n == 0x2028
    ||| n == 0x2029
    ||| n == 0x202F
    ||| n == 0x205F
    ||| n == 0x3000
}

/// Text that is empty once white space is trimmed from both ends: every
/// character of it is white space.
pub open spec fn is_blank(s: Seq<char>) -> bool {
    forall|i: int| 0 <= i < s.len() ==> is_space(#[trigger] s[i])
}

/// The scheme that is put before an address that names none.
pub open spec fn default_scheme() -> Seq<char> {
    "https://"@
}

/// Whether an address already begins with one of the two recognized schemes.
pub open spec fn has_scheme(s: Seq<char>) -> bool {
    "http://"@.is_prefix_of(s) || "https://"@.is_prefix_of(s)
}

/// The address that is loaded and remembered for what the user typed: the text
/// itself where it names a scheme, else the text behind the default scheme.
pub open spec fn resolved(s: Seq<char>) -> Seq<char> {
    if has_scheme(s) {
        s
    } else {
        default_scheme() + s
    }
}

/// The view of an address that may be missing.
pub open spec fn address_view(current: Option<&str>) -> Option<Seq<char>> {
    match current {
        Some(address) => Some(address@),
        None => None,
    }
}

/// Whether `c` is a white-space character.
pub fn is_whitespace(c: char) -> (b: bool)
    ensures
        b == is_space(c),
{
    let n: u32 = c as u32;
    (0x09 <= n && n <= 0x0D) || n == 0x20 || n == 0x85 || n == 0xA0 || n == 0x1680 || (0x2000 <= n
        && n <= 0x200A) || n == 0x2028 || n == 0x2029 || n == 0x202F || n == 0x205F || n == 0x3000
}

/// Whether nothing but white space stands in `s`.
pub fn is_blank_text(s: &str) -> (b: bool)
    ensures
        b == is_blank(s@),
{
    let n: usize = s.unicode_len();
    let mut i: usize = 0;
    while i < n
        invariant
            n == s@.len(),
            i <= n,
            forall|k: int| 0 <= k < i ==> is_space(#[trigger] s@[k]),
        decreases n - i,
    {
        if !is_whitespace(s.get_char(i)) {
            return false;
        }
        i += 1;
    }
    true
}

/// Whether `s` begins with `http://` or `https://`.
pub fn names_scheme(s: &str) -> (b: bool)
    ensures
        b == has_scheme(s@),
{
    has_prefix(s, "http://") || has_prefix(s, "https://")
}

/// Puts the default scheme before an address that names none.
pub fn resolve(input: &str) -> (address: String)
    ensures
        address@ == resolved(input@),
{
    if names_scheme(input) {
        String::from_str(input)
    } else {
        String::from_str("https://").concat(input)
    }
}

} // verus!
