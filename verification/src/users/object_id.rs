use vstd::prelude::*;

verus! {

/// The store's generated identifiers render as 24 hexadecimal digits
/// (12 bytes). A client may spell the digits in either case; the store
/// itself renders them in lower case. This module decides validity and
/// equality of identifier spellings.

pub open spec fn is_hex_digit(c: char) -> bool {
    ('0' as u32 <= c as u32 && c as u32 <= '9' as u32) || ('a' as u32 <= c as u32 && c as u32
        <= 'f' as u32) || ('A' as u32 <= c as u32 && c as u32 <= 'F' as u32)
}

pub open spec fn is_lower_hex_digit(c: char) -> bool {
    ('0' as u32 <= c as u32 && c as u32 <= '9' as u32) || ('a' as u32 <= c as u32 && c as u32
        <= 'f' as u32)
}

/// The lower-case spelling of a hex digit; other characters are left
/// alone.
pub open spec fn fold_hex_digit(c: char) -> char {
    match c {
        'A' => 'a',
        'B' => 'b',
        'C' => 'c',
        'D' => 'd',
        'E' => 'e',
        'F' => 'f',
        _ => c,
    }
}

/// Two digit spellings denote the same hex digit: equal once both are
/// folded to lower case.
pub open spec fn hex_digit_eq(a: char, b: char) -> bool {
    fold_hex_digit(a) == fold_hex_digit(b)
}

/// A syntactically valid identifier as a client may send it: exactly 24
/// hex digits, either case.
pub open spec fn is_valid_object_id(s: Seq<char>) -> bool {
    s.len() == 24 && (forall|i: int| 0 <= i < s.len() ==> is_hex_digit(#[trigger] s[i]))
}

/// The canonical rendering the store hands out: exactly 24 lower-case
/// hex digits.
pub open spec fn is_normal_object_id(s: Seq<char>) -> bool {
    s.len() == 24 && (forall|i: int| 0 <= i < s.len() ==> is_lower_hex_digit(#[trigger] s[i]))
}

/// Two identifier spellings denote the same identifier: same length and
/// the same hex digit at every position.
pub open spec fn object_id_eq(a: Seq<char>, b: Seq<char>) -> bool {
    a.len() == b.len() && (forall|i: int| 0 <= i < a.len() ==> #[trigger] hex_digit_eq(a[i], b[i]))
}

fn hex_digit(c: char) -> (b: bool)
    ensures
        b == is_hex_digit(c),
{
    let u = c as u32;
    (48 <= u && u <= 57) || (97 <= u && u <= 102) || (65 <= u && u <= 70)
}

fn fold_digit(c: char) -> (r: char)
    ensures
        r == fold_hex_digit(c),
{
    match c {
        'A' => 'a',
        'B' => 'b',
        'C' => 'c',
        'D' => 'd',
        'E' => 'e',
        'F' => 'f',
        _ => c,
    }
}

fn hex_digit_pair_eq(x: char, y: char) -> (r: bool)
    ensures
        r == hex_digit_eq(x, y),
{
    fold_digit(x) == fold_digit(y)
}

/// Decides whether a client-supplied identifier is syntactically valid.
pub fn valid_object_id(s: &str) -> (b: bool)
    ensures
        b == is_valid_object_id(s@),
{
    let len = s.unicode_len();
    if len != 24 {
        return false;
    }
    let mut i: usize = 0;
    while i < 24
        invariant
            0 <= i <= 24,
            s@.len() == 24,
            forall|j: int| 0 <= j < i ==> is_hex_digit(#[trigger] s@[j]),
        decreases 24 - i,
    {
        if !hex_digit(s.get_char(i)) {
            return false;
        }
        i = i + 1;
    }
    true
}

/// Decides whether two identifier spellings denote the same identifier.
pub fn object_ids_match(a: &str, b: &str) -> (r: bool)
    ensures
        r == object_id_eq(a@, b@),
{
    let la = a.unicode_len();
    let lb = b.unicode_len();
    if la != lb {
        return false;
    }
    let mut i: usize = 0;
    while i < la
        invariant
            0 <= i <= la,
            la == a@.len(),
            la == b@.len(),
            forall|j: int| 0 <= j < i ==> #[trigger] hex_digit_eq(a@[j], b@[j]),
        decreases la - i,
    {
        if !hex_digit_pair_eq(a.get_char(i), b.get_char(i)) {
            return false;
        }
        i = i + 1;
    }
    true
}

/// A lower-case hex digit folds to itself.
proof fn lemma_fold_fixes_lower(c: char)
    requires
        is_lower_hex_digit(c),
    ensures
        fold_hex_digit(c) == c,
{
}

/// An identifier spelling always denotes itself.
pub proof fn lemma_object_id_eq_refl(a: Seq<char>)
    ensures
        object_id_eq(a, a),
{
}

/// Two canonical renderings matched by one and the same spelling are
/// equal: a lookup key singles out at most one stored identifier.
pub proof fn lemma_match_same_normal(x: Seq<char>, a: Seq<char>, b: Seq<char>)
    requires
        is_normal_object_id(a),
        is_normal_object_id(b),
        object_id_eq(x, a),
        object_id_eq(x, b),
    ensures
        a == b,
{
    assert forall|i: int| 0 <= i < a.len() implies a[i] == b[i] by {
        assert(hex_digit_eq(x[i], a[i]));
        assert(hex_digit_eq(x[i], b[i]));
        assert(is_lower_hex_digit(a[i]));
        assert(is_lower_hex_digit(b[i]));
        lemma_fold_fixes_lower(a[i]);
        lemma_fold_fixes_lower(b[i]);
    }
    assert(a =~= b);
}

/// A syntactically invalid spelling matches no canonical rendering: it
/// behaves exactly as an absent identifier.
pub proof fn lemma_invalid_matches_nothing(x: Seq<char>, a: Seq<char>)
    requires
        !is_valid_object_id(x),
        is_normal_object_id(a),
    ensures
        !object_id_eq(x, a),
{
    if object_id_eq(x, a) {
        assert(x.len() == 24);
        assert forall|i: int| 0 <= i < x.len() implies is_hex_digit(#[trigger] x[i]) by {
            assert(hex_digit_eq(x[i], a[i]));
            assert(is_lower_hex_digit(a[i]));
            lemma_fold_fixes_lower(a[i]);
        }
    }
}

} // verus!
