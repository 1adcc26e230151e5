//! Character-level helpers shared by the codecs, the redaction rules and the
//! audit payload validator. Every text is reasoned about through its view, the
//! sequence of its `char`s.
use vstd::prelude::*;

verus! {

/// Compares two string slices with `<str as PartialEq>::eq`; Rust documents
/// string equality as equality of the underlying characters, which is what
/// the contract claims.
#[verifier::external_body]
pub(crate) fn str_equals(a: &str, b: &str) -> (r: bool)
    ensures
        r == (a@ == b@),
{
    a == b
}

/// Appends one character with `String::push`, which std documents as adding
/// the character at the end of the string.
#[verifier::external_body]
pub(crate) fn push_char(s: &mut String, c: char)
    ensures
        final(s)@ == old(s)@.push(c),
{
    s.push(c);
}

/// Appends a string slice with `String::push_str`, which std documents as
/// adding the slice at the end of the string.
#[verifier::external_body]
pub(crate) fn push_str(s: &mut String, t: &str)
    ensures
        final(s)@ == old(s)@ + t@,
{
    s.push_str(t);
}

/// The characters of `s`, in order.
pub fn chars_of(s: &str) -> (v: Vec<char>)
    ensures
        v@ == s@,
{
    let mut v: Vec<char> = Vec::new();
    for c in it: s.chars()
        invariant
            it.seq() == s@,
            v@ == it.seq().take(it.index() as int),
    {
        v.push(c);
    }
    proof {
        assert(s@.take(s@.len() as int) =~= s@);
    }
    v
}

/// A string whose characters are those of `v`.
pub fn string_from_chars(v: &Vec<char>) -> (s: String)
    ensures
        s@ == v@,
{
    let mut s = String::new();
    let mut i: usize = 0;
    while i < v.len()
        invariant
            i <= v@.len(),
            s@ == v@.take(i as int),
        decreases v@.len() - i,
    {
        push_char(&mut s, v[i]);
        proof {
            assert(v@.take(i + 1) =~= v@.take(i as int).push(v@[i as int]));
        }
        i = i + 1;
    }
    proof {
        assert(v@.take(v@.len() as int) =~= v@);
    }
    s
}

/// A fresh `String` holding the characters of `t`.
pub fn string_of(t: &str) -> (s: String)
    ensures
        s@ == t@,
{
    let mut s = String::new();
    push_str(&mut s, t);
    proof {
        assert(Seq::<char>::empty() + t@ =~= t@);
    }
    s
}

/// Whether `v` holds exactly the characters of `t`.
pub fn chars_equal_str(v: &Vec<char>, t: &str) -> (r: bool)
    ensures
        r == (v@ == t@),
{
    let w = chars_of(t);
    if v.len() != w.len() {
        return false;
    }
    let mut i: usize = 0;
    while i < v.len()
        invariant
            v@.len() == w@.len(),
            w@ == t@,
            i <= v@.len(),
            forall|k: int| 0 <= k < i ==> v@[k] == w@[k],
        decreases v@.len() - i,
    {
        if v[i] != w[i] {
            return false;
        }
        i = i + 1;
    }
    proof {
        assert(v@ =~= w@);
    }
    true
}

pub open spec fn is_ascii_upper(c: char) -> bool {
    'A' <= c && c <= 'Z'
}

pub open spec fn is_ascii_lower(c: char) -> bool {
    'a' <= c && c <= 'z'
}

pub open spec fn is_ascii_digit(c: char) -> bool {
    '0' <= c && c <= '9'
}

pub open spec fn is_ascii_alnum(c: char) -> bool {
    is_ascii_upper(c) || is_ascii_lower(c) || is_ascii_digit(c)
}

/// `char::to_ascii_lowercase`: ASCII capitals move to lower case, every other
/// character stays.
pub open spec fn ascii_lower(c: char) -> char {
    if is_ascii_upper(c) {
        ((c as u32) + 32) as char
    } else {
        c
    }
}

pub open spec fn ascii_lower_seq(s: Seq<char>) -> Seq<char> {
    Seq::new(s.len(), |i: int| ascii_lower(s[i]))
}

/// `char::to_ascii_uppercase`: ASCII letters to upper case, every other
/// character unchanged.
pub open spec fn ascii_upper(c: char) -> char {
    if is_ascii_lower(c) {
        ((c as u32) - 32) as char
    } else {
        c
    }
}

/// `str::to_ascii_uppercase`, character by character.
pub open spec fn ascii_upper_seq(s: Seq<char>) -> Seq<char> {
    Seq::new(s.len(), |i: int| ascii_upper(s[i]))
}

/// The Unicode `White_Space` characters, which `char::is_whitespace` and
/// `str::trim` go by.
pub open spec fn is_unicode_whitespace(c: char) -> bool {
    let u = c as u32;
    (0x09 <= u && u <= 0x0D) || u == 0x20 || u == 0x85 || u == 0xA0 || u == 0x1680 || (0x2000
        <= u && u <= 0x200A) || u == 0x2028 || u == 0x2029 || u == 0x202F || u == 0x205F || u
        == 0x3000
}

/// Unicode general category Cc, which `char::is_control` goes by.
pub open spec fn is_control_char(c: char) -> bool {
    let u = c as u32;
    u <= 0x1F || (0x7F <= u && u <= 0x9F)
}

pub open spec fn all_whitespace(s: Seq<char>) -> bool {
    forall|i: int| 0 <= i < s.len() ==> is_unicode_whitespace(#[trigger] s[i])
}

/// `needle` occurs in `hay` as a contiguous run.
pub open spec fn contains_run(hay: Seq<char>, needle: Seq<char>) -> bool {
    exists|i: int|
        0 <= i && i + needle.len() <= hay.len() && #[trigger] hay.subrange(i, i + needle.len())
            == needle
}

pub fn is_ascii_alnum_char(c: char) -> (r: bool)
    ensures
        r == is_ascii_alnum(c),
{
    ('A' <= c && c <= 'Z') || ('a' <= c && c <= 'z') || ('0' <= c && c <= '9')
}

pub fn is_whitespace_char(c: char) -> (r: bool)
    ensures
        r == is_unicode_whitespace(c),
{
    let u = c as u32;
    (0x09 <= u && u <= 0x0D) || u == 0x20 || u == 0x85 || u == 0xA0 || u == 0x1680 || (0x2000
        <= u && u <= 0x200A) || u == 0x2028 || u == 0x2029 || u == 0x202F || u == 0x205F || u
        == 0x3000
}

pub fn is_control(c: char) -> (r: bool)
    ensures
        r == is_control_char(c),
{
    let u = c as u32;
    u <= 0x1F || (0x7F <= u && u <= 0x9F)
}

pub fn lower_char(c: char) -> (r: char)
    ensures
        r == ascii_lower(c),
{
    if 'A' <= c && c <= 'Z' {
        let b = c as u8;
        ((b + 32) as u8) as char
    } else {
        c
    }
}

/// The characters of `s` with ASCII capitals lowered (`str::to_ascii_lowercase`).
pub fn ascii_lowercase_chars(s: &str) -> (v: Vec<char>)
    ensures
        v@ == ascii_lower_seq(s@),
{
    let cs = chars_of(s);
    let mut v: Vec<char> = Vec::new();
    let mut i: usize = 0;
    while i < cs.len()
        invariant
            cs@ == s@,
            i <= cs@.len(),
            v@.len() == i,
            forall|k: int| 0 <= k < i ==> v@[k] == ascii_lower(cs@[k]),
        decreases cs@.len() - i,
    {
        v.push(lower_char(cs[i]));
        i = i + 1;
    }
    proof {
        assert(v@ =~= ascii_lower_seq(s@));
    }
    v
}

/// Whether every character of `s` is white space (`s.trim().is_empty()`).
pub fn is_blank(s: &str) -> (r: bool)
    ensures
        r == all_whitespace(s@),
{
    let cs = chars_of(s);
    let mut i: usize = 0;
    while i < cs.len()
        invariant
            cs@ == s@,
            i <= cs@.len(),
            forall|k: int| 0 <= k < i ==> is_unicode_whitespace(#[trigger] cs@[k]),
        decreases cs@.len() - i,
    {
        if !is_whitespace_char(cs[i]) {
            return false;
        }
        i = i + 1;
    }
    true
}

/// Whether the characters of `needle` occur as a run in `hay`.
pub fn chars_contain_str(hay: &Vec<char>, needle: &str) -> (r: bool)
    ensures
        r == contains_run(hay@, needle@),
{
    let n = chars_of(needle);
    if n.len() > hay.len() {
        proof {
            assert forall|i: int|
                0 <= i && i + needle@.len() <= hay@.len() implies #[trigger] hay@.subrange(
                i,
                i + needle@.len(),
            ) != needle@ by {}
        }
        return false;
    }
    if n.len() == 0 {
        proof {
            assert(hay@.subrange(0int, 0int + needle@.len()) =~= needle@);
        }
        return true;
    }
    let end = hay.len() - n.len() + 1;
    let mut i: usize = 0;
    while i < end
        invariant
            n@ == needle@,
            0 < n@.len() <= hay@.len(),
            hay@.len() <= usize::MAX,
            end == hay@.len() - n@.len() + 1,
            i <= end,
            forall|j: int|
                0 <= j < i ==> #[trigger] hay@.subrange(j, j + n@.len()) != n@,
        decreases end - i,
    {
        let mut k: usize = 0;
        let mut same = true;
        while k < n.len()
            invariant
                0 < n@.len() <= hay@.len(),
                hay@.len() <= usize::MAX,
                i < end,
                end == hay@.len() - n@.len() + 1,
                k <= n@.len(),
                same == (forall|m: int| 0 <= m < k ==> hay@[i + m] == n@[m]),
            decreases n@.len() - k,
        {
            if hay[i + k] != n[k] {
                same = false;
            }
            k = k + 1;
        }
        if same {
            proof {
                assert(hay@.subrange(i as int, i + n@.len()) =~= n@);
            }
            return true;
        }
        proof {
            if hay@.subrange(i as int, i + n@.len()) == n@ {
                assert forall|m: int| 0 <= m < n@.len() implies hay@[i + m] == n@[m] by {
                    assert(hay@.subrange(i as int, i + n@.len())[m] == hay@[i + m]);
                }
            }
        }
        i = i + 1;
    }
    proof {
        assert forall|j: int|
            0 <= j && j + needle@.len() <= hay@.len() implies #[trigger] hay@.subrange(
            j,
            j + needle@.len(),
        ) != needle@ by {
            assert(j < i);
        }
    }
    false
}

pub open spec fn digit_char(d: nat) -> char {
    (48 + d) as char
}

/// The decimal digits of `n`, most significant first, as `u64::to_string`
/// writes them.
pub open spec fn decimal(n: nat) -> Seq<char>
    decreases n,
{
    if n < 10 {
        seq![digit_char(n)]
    } else {
        decimal(n / 10).push(digit_char(n % 10))
    }
}

/// `i64::to_string`: a minus sign before the digits of the magnitude.
pub open spec fn signed_decimal(i: int) -> Seq<char> {
    if i < 0 {
        seq!['-'] + decimal((-i) as nat)
    } else {
        decimal(i as nat)
    }
}

/// Appends the decimal digits of `n`.
pub fn push_decimal(s: &mut String, n: u64)
    ensures
        final(s)@ == old(s)@ + decimal(n as nat),
    decreases n,
{
    if n >= 10 {
        push_decimal(s, n / 10);
    }
    let d: u8 = (n % 10) as u8;
    let c: char = (d + 48u8) as char;
    proof {
        assert(c == digit_char((n % 10) as nat));
    }
    push_char(s, c);
    proof {
        if n >= 10 {
            assert(old(s)@ + decimal(n as nat) =~= old(s)@ + decimal((n / 10) as nat) + seq![c]);
        } else {
            assert(old(s)@ + decimal(n as nat) =~= old(s)@.push(c));
        }
    }
}

/// Appends `i` as `i64::to_string` writes it.
pub fn push_signed_decimal(s: &mut String, i: i64)
    ensures
        final(s)@ == old(s)@ + signed_decimal(i as int),
{
    if i < 0 {
        push_char(s, '-');
        let magnitude: u64 = ((-(i + 1)) as u64) + 1;
        push_decimal(s, magnitude);
        proof {
            assert(old(s)@ + signed_decimal(i as int) =~= old(s)@.push('-') + decimal(
                magnitude as nat,
            ));
        }
    } else {
        push_decimal(s, i as u64);
    }
}

/// `n.to_string()`.
pub fn u64_to_string(n: u64) -> (s: String)
    ensures
        s@ == decimal(n as nat),
{
    let mut s = String::new();
    push_decimal(&mut s, n);
    proof {
        assert(Seq::<char>::empty() + decimal(n as nat) =~= decimal(n as nat));
    }
    s
}

} // verus!
