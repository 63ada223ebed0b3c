//! Byte-level helpers on `&str`: splitting at the first occurrence of an
//! ASCII byte, stripping a one-byte prefix, and comparing two strings.

use vstd::prelude::*;
use vstd::string::StringSliceAdditionalSpecFns;
use vstd::utf8::*;

verus! {

/// The bytes of a string are valid UTF-8, and an ASCII byte in them
/// starts a character.
proof fn lemma_ascii_byte_is_boundary(s: &str, i: int)
    requires
        0 <= i < s.spec_bytes().len(),
        s.spec_bytes()[i] < 0x80,
    ensures
        valid_utf8(s.spec_bytes()),
        is_char_boundary(s.spec_bytes(), i),
{
    encode_utf8_valid_utf8(s@);
    is_char_boundary_iff_not_is_continuation_byte(s.spec_bytes(), i);
}

/// The index of the first occurrence of `c` in `b`, if `c` occurs.
pub open spec fn first_index_of(b: Seq<u8>, c: u8) -> Option<int> {
    if exists|i: int| 0 <= i < b.len() && b[i] == c {
        Some(choose|i: int| 0 <= i < b.len() && b[i] == c && forall|j: int| 0 <= j < i ==> b[j] != c)
    } else {
        None
    }
}

/// Splits `b` around the first occurrence of `c`: the bytes before it and
/// the bytes after it. `None` when `c` does not occur.
pub open spec fn split_once_spec(b: Seq<u8>, c: u8) -> Option<(Seq<u8>, Seq<u8>)> {
    match first_index_of(b, c) {
        Some(i) => Some((b.take(i), b.skip(i + 1))),
        None => None,
    }
}

/// The first occurrence is unique: any index that holds `c` with no `c`
/// before it is the one `first_index_of` picks.
pub proof fn lemma_first_index_of(b: Seq<u8>, c: u8, i: int)
    requires
        0 <= i < b.len(),
        b[i] == c,
        forall|j: int| 0 <= j < i ==> b[j] != c,
    ensures
        first_index_of(b, c) == Some(i),
{
    let k = choose|k: int| 0 <= k < b.len() && b[k] == c && forall|j: int| 0 <= j < k ==> b[j] != c;
    assert(0 <= k < b.len() && b[k] == c && forall|j: int| 0 <= j < k ==> b[j] != c);
    if k < i {
        assert(b[k] != c);
    }
    if i < k {
        assert(b[i] != c);
    }
}

/// The UTF-8 bytes of an ASCII string are its characters, one byte each.
pub proof fn lemma_ascii_literal(s: &str)
    requires
        is_ascii_chars(s@),
    ensures
        s.spec_bytes() == s@.map_values(|c: char| c as u8),
{
    is_ascii_chars_encode_utf8(s@);
    assert(s.spec_bytes() =~= s@.map_values(|c: char| c as u8));
}

/// Index of the first byte `c` in `s`, if any.
fn find_byte(s: &str, c: u8) -> (r: Option<usize>)
    ensures
        r matches Some(i) ==> first_index_of(s.spec_bytes(), c) == Some(i as int) && i
            < s.spec_bytes().len() && s.spec_bytes()[i as int] == c,
        r is None ==> first_index_of(s.spec_bytes(), c) is None,
{
    let bytes = s.as_bytes();
    let n = bytes.len();
    let mut i: usize = 0;
    while i < n
        invariant
            bytes@ == s.spec_bytes(),
            n == bytes@.len(),
            i <= n,
            forall|j: int| 0 <= j < i ==> bytes@[j] != c,
        decreases n - i,
    {
        if bytes[i] == c {
            proof {
                lemma_first_index_of(s.spec_bytes(), c, i as int);
            }
            return Some(i);
        }
        i = i + 1;
    }
    None
}

/// Cuts `s` into the bytes before index `i` and the bytes after it, where
/// the byte at `i` is ASCII.
fn cut_around(s: &str, i: usize) -> (r: (&str, &str))
    requires
        i < s.spec_bytes().len(),
        s.spec_bytes()[i as int] < 0x80,
    ensures
        r.0.spec_bytes() == s.spec_bytes().take(i as int),
        r.1.spec_bytes() == s.spec_bytes().skip(i + 1),
{
    let ghost bytes = s.spec_bytes();
    proof {
        lemma_split_points(s, i as int);
    }
    let (head, rest) = s.split_at(i);
    assert(rest.spec_bytes() =~= bytes.subrange(i as int, bytes.len() as int));
    let (_sep, tail) = rest.split_at(1);
    assert(head.spec_bytes() =~= bytes.take(i as int));
    assert(tail.spec_bytes() =~= bytes.skip(i + 1));
    (head, tail)
}

/// Splits `s` around the first occurrence of the ASCII byte `c`, as
/// `str::split_once` does with a one-byte pattern.
pub fn split_once_byte(s: &str, c: u8) -> (r: Option<(&str, &str)>)
    requires
        c < 0x80,
    ensures
        r is None <==> split_once_spec(s.spec_bytes(), c) is None,
        r matches Some((a, b)) ==> split_once_spec(s.spec_bytes(), c) == Some(
            (a.spec_bytes(), b.spec_bytes()),
        ),
{
    match find_byte(s, c) {
        None => None,
        Some(i) => Some(cut_around(s, i)),
    }
}

/// Splitting at an ASCII byte at `i`, and once more right after it, cuts
/// the string at character boundaries.
proof fn lemma_split_points(s: &str, i: int)
    requires
        0 <= i < s.spec_bytes().len(),
        s.spec_bytes()[i] < 0x80,
    ensures
        is_char_boundary(s.spec_bytes(), i),
        is_char_boundary(s.spec_bytes().subrange(i, s.spec_bytes().len() as int), 1),
{
    let bytes = s.spec_bytes();
    lemma_ascii_byte_is_boundary(s, i);
    valid_utf8_split(bytes, i);
    let rb = bytes.subrange(i, bytes.len() as int);
    if rb.len() == 1 {
        is_char_boundary_start_end_of_seq(rb);
    } else {
        lemma_after_ascii_is_boundary(rb);
    }
}

/// In valid UTF-8 whose first byte is ASCII, index 1 is a character boundary.
proof fn lemma_after_ascii_is_boundary(b: Seq<u8>)
    requires
        valid_utf8(b),
        b.len() >= 2,
        b[0] < 0x80,
    ensures
        is_char_boundary(b, 1),
{
    reveal_with_fuel(is_char_boundary, 2);
    assert(length_of_first_scalar(b) == 1);
}

/// Removes a leading ASCII byte `c`, as `str::strip_prefix` does with a
/// one-byte pattern.
pub fn strip_prefix_byte(s: &str, c: u8) -> (r: Option<&str>)
    requires
        c < 0x80,
    ensures
        r is Some <==> (s.spec_bytes().len() > 0 && s.spec_bytes()[0] == c),
        r matches Some(t) ==> t.spec_bytes() == s.spec_bytes().skip(1),
{
    let bytes = s.as_bytes();
    if bytes.len() == 0 || bytes[0] != c {
        return None;
    }
    let ghost b = s.spec_bytes();
    assert(is_char_boundary(b, 1)) by {
        lemma_ascii_byte_is_boundary(s, 0);
        if b.len() >= 2 {
            lemma_after_ascii_is_boundary(b);
        } else {
            is_char_boundary_start_end_of_seq(b);
        }
    }
    let (_head, tail) = s.split_at(1);
    assert(tail.spec_bytes() =~= b.skip(1));
    Some(tail)
}

/// The part of `s` after its first `n` bytes, where `n` is a character
/// boundary.
pub fn skip_bytes(s: &str, n: usize) -> (r: &str)
    requires
        n <= s.spec_bytes().len(),
        is_char_boundary(s.spec_bytes(), n as int),
    ensures
        r.spec_bytes() == s.spec_bytes().skip(n as int),
{
    let (_head, tail) = s.split_at(n);
    assert(tail.spec_bytes() =~= s.spec_bytes().skip(n as int));
    tail
}

/// Byte-wise equality of two strings.
pub fn str_eq(a: &str, b: &str) -> (r: bool)
    ensures
        r == (a.spec_bytes() == b.spec_bytes()),
{
    let x = a.as_bytes();
    let y = b.as_bytes();
    if x.len() != y.len() {
        return false;
    }
    let n = x.len();
    let mut i: usize = 0;
    while i < n
        invariant
            x@ == a.spec_bytes(),
            y@ == b.spec_bytes(),
            n == x@.len(),
            n == y@.len(),
            i <= n,
            forall|j: int| 0 <= j < i ==> x@[j] == y@[j],
        decreases n - i,
    {
        if x[i] != y[i] {
            return false;
        }
        i = i + 1;
    }
    assert(x@ =~= y@);
    true
}

} // verus!
