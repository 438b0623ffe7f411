use vstd::prelude::*;
use vstd::string::StrSliceExecFns;

verus! {

/// What `char::is_alphanumeric` returns for a character (the Unicode
/// `Alphabetic` or `Numeric` property).
pub uninterp spec fn unicode_is_alphanumeric(c: char) -> bool;

/// Whether the character is an ASCII letter or digit.
pub open spec fn spec_is_ascii_alphanumeric(c: char) -> bool {
    ('0' <= c && c <= '9') || ('a' <= c && c <= 'z') || ('A' <= c && c <= 'Z')
}

/// Whether the character is an ASCII digit.
pub open spec fn spec_is_ascii_digit(c: char) -> bool {
    '0' <= c && c <= '9'
}

/// Whether the character is an ASCII hexadecimal digit.
pub open spec fn spec_is_ascii_hexdigit(c: char) -> bool {
    ('0' <= c && c <= '9') || ('a' <= c && c <= 'f') || ('A' <= c && c <= 'F')
}

/// Whether the character is an ASCII character.
pub open spec fn spec_is_ascii(c: char) -> bool {
    (c as u32) < 0x80
}

/// `char::is_alphanumeric` of std: whether the character has the Unicode
/// `Alphabetic` or `Numeric` property. The contract states the documented
/// behaviour on ASCII characters (the ASCII letters and digits, nothing
/// else); on other characters the result is only named.
#[verifier::external_body]
pub fn is_alphanumeric(c: char) -> (res: bool)
    ensures
        res == unicode_is_alphanumeric(c),
        spec_is_ascii(c) ==> (res == spec_is_ascii_alphanumeric(c)),
{
    c.is_alphanumeric()
}

/// What `char::is_whitespace` returns for a character (the Unicode
/// `White_Space` property).
pub uninterp spec fn unicode_is_whitespace(c: char) -> bool;

/// Whether the character is ASCII whitespace in the sense of the Unicode
/// `White_Space` property: space, tab, line feed, vertical tab, form feed and
/// carriage return.
pub open spec fn spec_is_ascii_white_space(c: char) -> bool {
    c == ' ' || c == '\t' || c == '\n' || c == '\x0B' || c == '\x0C' || c == '\r'
}

/// `char::is_whitespace` of std: whether the character has the Unicode
/// `White_Space` property. The contract states the documented behaviour on
/// ASCII characters; on other characters the result is only named.
#[verifier::external_body]
pub fn is_whitespace(c: char) -> (res: bool)
    ensures
        res == unicode_is_whitespace(c),
        spec_is_ascii(c) ==> (res == spec_is_ascii_white_space(c)),
{
    c.is_whitespace()
}

/// The string without its leading and trailing whitespace (`str::trim`).
pub open spec fn spec_trim(s: Seq<char>) -> Seq<char>
    decreases s.len(),
{
    if s.len() > 0 && unicode_is_whitespace(s[0]) {
        spec_trim(s.drop_first())
    } else if s.len() > 0 && unicode_is_whitespace(s.last()) {
        spec_trim(s.drop_last())
    } else {
        s
    }
}

/// The string without its leading and trailing whitespace, whitespace being
/// what `char::is_whitespace` says (as `str::trim` does).
pub fn trim(s: &str) -> (res: String)
    ensures
        res@ == spec_trim(s@),
{
    let n = s.unicode_len();
    let mut i: usize = 0;
    let mut j: usize = n;
    proof {
        assert(s@.subrange(0, n as int) =~= s@);
    }
    while i < j && is_whitespace(s.get_char(i))
        invariant
            n == s@.len(),
            0 <= i <= j <= n,
            j == n,
            spec_trim(s@) == spec_trim(s@.subrange(i as int, j as int)),
        decreases j - i,
    {
        proof {
            assert(s@.subrange(i as int, j as int).drop_first() =~= s@.subrange(i as int + 1, j as int));
        }
        i = i + 1;
    }
    while i < j && is_whitespace(s.get_char(j - 1))
        invariant
            n == s@.len(),
            0 <= i <= j <= n,
            i < j ==> !unicode_is_whitespace(s@[i as int]),
            spec_trim(s@) == spec_trim(s@.subrange(i as int, j as int)),
        decreases j - i,
    {
        proof {
            assert(s@.subrange(i as int, j as int).drop_last() =~= s@.subrange(i as int, j as int - 1));
        }
        j = j - 1;
    }
    proof {
        if i < j {
            assert(s@.subrange(i as int, j as int)[0] == s@[i as int]);
            assert(s@.subrange(i as int, j as int).last() == s@[j - 1]);
        }
    }
    let mut res = String::new();
    let mut k: usize = i;
    while k < j
        invariant
            n == s@.len(),
            0 <= i <= k <= j <= n,
            res@ == s@.subrange(i as int, k as int),
        decreases j - k,
    {
        let c = s.get_char(k);
        push_char(&mut res, c);
        proof {
            assert(s@.subrange(i as int, k as int + 1) =~= s@.subrange(i as int, k as int).push(c));
        }
        k = k + 1;
    }
    res
}

/// Whether the character is an ASCII letter or digit.
pub fn is_ascii_alphanumeric(c: char) -> (res: bool)
    ensures
        res == spec_is_ascii_alphanumeric(c),
{
    ('0' <= c && c <= '9') || ('a' <= c && c <= 'z') || ('A' <= c && c <= 'Z')
}

/// Whether the character is an ASCII digit.
pub fn is_ascii_digit(c: char) -> (res: bool)
    ensures
        res == spec_is_ascii_digit(c),
{
    '0' <= c && c <= '9'
}

/// Whether the character is an ASCII hexadecimal digit.
pub fn is_ascii_hexdigit(c: char) -> (res: bool)
    ensures
        res == spec_is_ascii_hexdigit(c),
{
    ('0' <= c && c <= '9') || ('a' <= c && c <= 'f') || ('A' <= c && c <= 'F')
}

/// The characters of a string.
pub fn chars_of(s: &str) -> (res: Vec<char>)
    ensures
        res@ == s@,
{
    let n = s.unicode_len();
    let mut res: Vec<char> = Vec::new();
    let mut i: usize = 0;
    while i < n
        invariant
            n == s@.len(),
            0 <= i <= n,
            res@ == s@.take(i as int),
        decreases n - i,
    {
        let c = s.get_char(i);
        res.push(c);
        proof {
            assert(s@.take(i as int + 1) =~= s@.take(i as int).push(c));
        }
        i = i + 1;
    }
    proof {
        assert(s@.take(n as int) =~= s@);
    }
    res
}

/// `String::push` of std: appends the character to the string.
#[verifier::external_body]
pub fn push_char(s: &mut String, c: char)
    ensures
        final(s)@ == old(s)@.push(c),
{
    s.push(c);
}

/// Appends the characters of `t` to the string (`String::push_str`).
pub fn push_str(s: &mut String, t: &str)
    ensures
        final(s)@ == old(s)@ + t@,
{
    let n = t.unicode_len();
    let mut i: usize = 0;
    while i < n
        invariant
            n == t@.len(),
            0 <= i <= n,
            s@ == old(s)@ + t@.take(i as int),
        decreases n - i,
    {
        let c = t.get_char(i);
        push_char(s, c);
        proof {
            assert(t@.take(i as int + 1) =~= t@.take(i as int).push(c));
            assert(old(s)@ + t@.take(i as int + 1) =~= (old(s)@ + t@.take(i as int)).push(c));
        }
        i = i + 1;
    }
    proof {
        assert(t@.take(n as int) =~= t@);
    }
}

/// The decimal digit for a value below ten.
pub open spec fn digit_char(d: nat) -> char {
    if d == 0 {
        '0'
    } else if d == 1 {
        '1'
    } else if d == 2 {
        '2'
    } else if d == 3 {
        '3'
    } else if d == 4 {
        '4'
    } else if d == 5 {
        '5'
    } else if d == 6 {
        '6'
    } else if d == 7 {
        '7'
    } else if d == 8 {
        '8'
    } else {
        '9'
    }
}

/// The decimal representation of a number, without leading zeros.
pub open spec fn decimal(n: nat) -> Seq<char>
    decreases n,
{
    if n < 10 {
        seq![digit_char(n)]
    } else {
        decimal(n / 10).push(digit_char(n % 10))
    }
}

fn digit(d: usize) -> (res: char)
    requires
        d < 10,
    ensures
        res == digit_char(d as nat),
{
    if d == 0 {
        '0'
    } else if d == 1 {
        '1'
    } else if d == 2 {
        '2'
    } else if d == 3 {
        '3'
    } else if d == 4 {
        '4'
    } else if d == 5 {
        '5'
    } else if d == 6 {
        '6'
    } else if d == 7 {
        '7'
    } else if d == 8 {
        '8'
    } else {
        '9'
    }
}

/// Appends the decimal representation of a number to the string.
pub fn push_decimal(s: &mut String, n: usize)
    ensures
        final(s)@ == old(s)@ + decimal(n as nat),
    decreases n,
{
    if n < 10 {
        push_char(s, digit(n));
        proof {
            assert(old(s)@.push(digit_char(n as nat)) =~= old(s)@ + seq![digit_char(n as nat)]);
        }
    } else {
        push_decimal(s, n / 10);
        push_char(s, digit(n % 10));
        proof {
            assert(old(s)@ + decimal((n / 10) as nat).push(digit_char((n % 10) as nat)) =~= (old(s)@
                + decimal((n / 10) as nat)).push(digit_char((n % 10) as nat)));
        }
    }
}

/// The string made of the given characters.
pub fn string_from_chars(cs: &[char]) -> (res: String)
    ensures
        res@ == cs@,
{
    let mut res = String::new();
    let n = cs.len();
    let mut i: usize = 0;
    while i < n
        invariant
            n == cs@.len(),
            0 <= i <= n,
            res@ == cs@.take(i as int),
        decreases n - i,
    {
        push_char(&mut res, cs[i]);
        proof {
            assert(cs@.take(i as int + 1) =~= cs@.take(i as int).push(cs@[i as int]));
        }
        i = i + 1;
    }
    proof {
        assert(cs@.take(n as int) =~= cs@);
    }
    res
}

/// The number of bytes of the UTF-8 encoding of a character.
pub open spec fn spec_utf8_len(c: char) -> int {
    if (c as u32) < 0x80 {
        1
    } else if (c as u32) < 0x800 {
        2
    } else if (c as u32) < 0x10000 {
        3
    } else {
        4
    }
}

/// The number of bytes of the UTF-8 encoding of a character
/// (`char::len_utf8`).
pub fn utf8_len(c: char) -> (res: usize)
    ensures
        res == spec_utf8_len(c),
{
    let v = c as u32;
    if v < 0x80 {
        1
    } else if v < 0x800 {
        2
    } else if v < 0x10000 {
        3
    } else {
        4
    }
}

/// The byte index in the UTF-8 encoding of `s` of the character at `k`.
pub open spec fn byte_index(s: Seq<char>, k: int) -> int
    decreases k,
{
    if k <= 0 {
        0
    } else {
        byte_index(s, k - 1) + spec_utf8_len(s[k - 1])
    }
}

proof fn lemma_byte_index_bounds(s: Seq<char>, k: int)
    requires
        0 <= k,
    ensures
        k <= byte_index(s, k) <= 4 * k,
    decreases k,
{
    if k > 0 {
        lemma_byte_index_bounds(s, k - 1);
    }
}

/// The byte index in the UTF-8 encoding of `s` of the character at `k`.
pub fn char_to_byte_index(s: &[char], k: usize) -> (res: usize)
    requires
        k <= s@.len(),
        4 * s@.len() <= usize::MAX,
    ensures
        res == byte_index(s@, k as int),
{
    let mut res: usize = 0;
    let mut i: usize = 0;
    while i < k
        invariant
            k <= s@.len(),
            4 * s@.len() <= usize::MAX,
            0 <= i <= k,
            res == byte_index(s@, i as int),
        decreases k - i,
    {
        proof {
            lemma_byte_index_bounds(s@, i as int + 1);
        }
        res = res + utf8_len(s[i]);
        i = i + 1;
    }
    res
}

/// Whether `needle` occurs in `haystack`.
pub open spec fn contains_sub(haystack: Seq<char>, needle: Seq<char>) -> bool {
    exists|i: int|
        0 <= i && i + needle.len() <= haystack.len() && #[trigger] haystack.subrange(
            i,
            i + needle.len(),
        ) == needle
}

/// Whether `needle` occurs in `haystack` at `i`.
fn matches_at(haystack: &[char], needle: &[char], i: usize) -> (res: bool)
    requires
        i + needle@.len() <= haystack@.len(),
    ensures
        res == (haystack@.subrange(i as int, i + needle@.len()) == needle@),
{
    let n = needle.len();
    let mut j: usize = 0;
    while j < n
        invariant
            n == needle@.len(),
            i + n <= haystack@.len(),
            haystack@.len() == haystack.len(),
            0 <= j <= n,
            forall|m: int| 0 <= m < j ==> haystack@[i + m] == needle@[m],
        decreases n - j,
    {
        if haystack[i + j] != needle[j] {
            proof {
                assert(haystack@.subrange(i as int, i + n)[j as int] != needle@[j as int]);
            }
            return false;
        }
        j = j + 1;
    }
    proof {
        assert(haystack@.subrange(i as int, i + n) =~= needle@);
    }
    true
}

/// Whether `needle` occurs in `haystack` (`str::contains`).
pub fn contains(haystack: &[char], needle: &[char]) -> (res: bool)
    ensures
        res == contains_sub(haystack@, needle@),
{
    let h = haystack.len();
    let n = needle.len();
    if n > h {
        proof {
            assert forall|i: int|
                0 <= i && i + n <= h implies #[trigger] haystack@.subrange(i, i + n) != needle@ by {}
        }
        return false;
    }
    let mut i: usize = 0;
    loop
        invariant
            n == needle@.len(),
            h == haystack@.len(),
            n <= h,
            0 <= i <= h - n,
            forall|m: int| 0 <= m < i ==> #[trigger] haystack@.subrange(m, m + n) != needle@,
        ensures
            forall|m: int| 0 <= m <= h - n ==> #[trigger] haystack@.subrange(m, m + n) != needle@,
        decreases h - n - i,
    {
        if matches_at(haystack, needle, i) {
            return true;
        }
        if i == h - n {
            break;
        }
        i = i + 1;
    }
    false
}

/// Whether two strings are equal.
pub fn str_equal(a: &str, b: &str) -> (res: bool)
    ensures
        res == (a@ == b@),
{
    let n = a.unicode_len();
    if n != b.unicode_len() {
        return false;
    }
    let mut i: usize = 0;
    while i < n
        invariant
            n == a@.len(),
            n == b@.len(),
            0 <= i <= n,
            forall|k: int| 0 <= k < i ==> a@[k] == b@[k],
        decreases n - i,
    {
        if a.get_char(i) != b.get_char(i) {
            return false;
        }
        i = i + 1;
    }
    proof {
        assert(a@ =~= b@);
    }
    true
}

/// Whether two sequences of characters are equal.
pub fn chars_equal(a: &[char], b: &[char]) -> (res: bool)
    ensures
        res == (a@ == b@),
{
    if a.len() != b.len() {
        return false;
    }
    let n = a.len();
    let mut i: usize = 0;
    while i < n
        invariant
            n == a@.len(),
            n == b@.len(),
            0 <= i <= n,
            forall|m: int| 0 <= m < i ==> a@[m] == b@[m],
        decreases n - i,
    {
        if a[i] != b[i] {
            return false;
        }
        i = i + 1;
    }
    proof {
        assert(a@ =~= b@);
    }
    true
}

} // verus!
