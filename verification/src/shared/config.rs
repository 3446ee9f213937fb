use vstd::prelude::*;

verus! {

/// Where the server is to listen.
pub struct ServerBind {
    pub addr: String,
    pub port: u16,
}

pub const DEFAULT_PORT: u16 = 3000;

pub open spec fn is_dec_digit(c: char) -> bool {
    '0' as u32 <= c as u32 && c as u32 <= '9' as u32
}

pub open spec fn dec_digit_val(c: char) -> int {
    c as u32 - '0' as u32
}

/// The number a sequence of decimal digits denotes, most significant
/// digit first.
pub open spec fn dec_val(s: Seq<char>) -> int
    decreases s.len(),
{
    if s.len() == 0 {
        0
    } else {
        dec_val(s.drop_last()) * 10 + dec_digit_val(s.last())
    }
}

/// The digits of a numeric string: everything after an optional
/// leading `+`.
pub open spec fn digit_part(s: Seq<char>) -> Seq<char> {
    if s.len() > 0 && s[0] == '+' {
        s.subrange(1, s.len() as int)
    } else {
        s
    }
}

pub open spec fn all_dec_digits(s: Seq<char>) -> bool {
    forall|i: int| 0 <= i < s.len() ==> is_dec_digit(#[trigger] s[i])
}

/// What `u16` parsing makes of a string: an optional leading `+`, then
/// at least one decimal digit, denoting a value that fits in sixteen
/// bits; anything else is rejected.
pub open spec fn parsed_u16(s: Seq<char>) -> Option<u16> {
    if digit_part(s).len() > 0 && all_dec_digits(digit_part(s)) && dec_val(digit_part(s)) <= 65535 {
        Some(dec_val(digit_part(s)) as u16)
    } else {
        None
    }
}

proof fn lemma_dec_val_nonneg(s: Seq<char>)
    requires
        forall|i: int| 0 <= i < s.len() ==> is_dec_digit(#[trigger] s[i]),
    ensures
        dec_val(s) >= 0,
    decreases s.len(),
{
    if s.len() > 0 {
        lemma_dec_val_nonneg(s.drop_last());
    }
}

/// Extending a digit string can only keep or grow the value it denotes.
proof fn lemma_dec_val_grows(s: Seq<char>, i: int)
    requires
        forall|k: int| 0 <= k < s.len() ==> is_dec_digit(#[trigger] s[k]),
        0 <= i <= s.len(),
    ensures
        dec_val(s) >= dec_val(s.take(i)),
    decreases s.len() - i,
{
    if i < s.len() {
        lemma_dec_val_grows(s, i + 1);
        assert(s.take(i + 1).drop_last() =~= s.take(i));
        assert(dec_val(s.take(i + 1)) == dec_val(s.take(i)) * 10 + dec_digit_val(s.take(i + 1).last()));
        lemma_dec_val_nonneg(s.take(i));
    } else {
        assert(s.take(i) =~= s);
    }
}

fn dec_digit_of(c: char) -> (r: Option<u32>)
    ensures
        r matches Some(v) ==> is_dec_digit(c) && v == dec_digit_val(c),
        r is None ==> !is_dec_digit(c),
{
    let u = c as u32;
    if 48 <= u && u <= 57 {
        Some(u - 48)
    } else {
        None
    }
}

/// Parses a decimal `u16` exactly as the standard library does: an
/// optional leading `+`, then decimal digits whose value fits.
pub fn parse_u16(s: &str) -> (r: Option<u16>)
    ensures
        r == parsed_u16(s@),
{
    let len = s.unicode_len();
    let start: usize = if len > 0 && s.get_char(0) == '+' {
        1
    } else {
        0
    };
    let ghost digits = digit_part(s@);
    assert(digits =~= s@.subrange(start as int, len as int));
    if len == start {
        assert(digits.len() == 0);
        return None;
    }
    let mut acc: u32 = 0;
    let mut i: usize = start;
    while i < len
        invariant
            start <= i <= len,
            len == s@.len(),
            digits == digit_part(s@),
            digits == s@.subrange(start as int, len as int),
            digits.len() == len - start,
            forall|k: int| 0 <= k < i - start ==> is_dec_digit(#[trigger] digits[k]),
            acc == dec_val(digits.take(i - start)),
            acc <= 65535,
        decreases len - i,
    {
        let c = s.get_char(i);
        assert(digits[i - start] == s@[i as int]);
        match dec_digit_of(c) {
            None => {
                assert(!is_dec_digit(digit_part(s@)[i - start]));
                assert(!all_dec_digits(digit_part(s@)));
                return None;
            },
            Some(d) => {
                proof {
                    assert(digits.take(i - start + 1).drop_last() =~= digits.take(i - start));
                }
                let next = acc * 10 + d;
                assert(next == dec_val(digits.take(i - start + 1)));
                if next > 65535 {
                    proof {
                        if all_dec_digits(digit_part(s@)) {
                            lemma_dec_val_grows(digits, i - start + 1);
                            assert(dec_val(digit_part(s@)) > 65535);
                        }
                    }
                    return None;
                }
                acc = next;
            },
        }
        i = i + 1;
    }
    assert(digits.take(len - start) =~= digits);
    Some(acc as u16)
}

/// Builds the bind configuration from the optionally supplied address
/// and port strings: a missing address falls back to every interface, a
/// missing or unparsable port to the default.
pub fn build_server_bind(addr: Option<String>, port: Option<String>) -> (r: ServerBind)
    ensures
        (r.addr@ == match addr {
            Some(a) => a@,
            None => "0.0.0.0"@,
        }),
        (r.port == match port {
            Some(p) => match parsed_u16(p@) {
                Some(v) => v,
                None => DEFAULT_PORT,
            },
            None => DEFAULT_PORT,
        }),
{
    let a = match addr {
        Some(a) => a,
        None => "0.0.0.0".to_owned(),
    };
    let p = match port {
        Some(p) => match parse_u16(p.as_str()) {
            Some(v) => v,
            None => DEFAULT_PORT,
        },
        None => DEFAULT_PORT,
    };
    ServerBind { addr: a, port: p }
}

} // verus!
