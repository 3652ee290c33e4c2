//! Text as sequences of characters, and the notation of numbers in a field.

use vstd::prelude::*;

verus! {

/// A text that may be absent, as its characters.
pub open spec fn text_of(text: Option<String>) -> Option<Seq<char>> {
    match text {
        Some(t) => Some(t@),
        None => None,
    }
}

/// A borrowed text that may be absent, as its characters.
pub open spec fn slice_of(text: Option<&str>) -> Option<Seq<char>> {
    match text {
        Some(t) => Some(t@),
        None => None,
    }
}

/// The characters of `s`, in order.
pub fn chars_of(s: &str) -> (v: Vec<char>)
    ensures
        v@ == s@,
{
    let mut v: Vec<char> = Vec::new();
    for c in it: s.chars()
        invariant
            v@ == it.seq().take(it.index() as int),
            it.seq() == s@,
    {
        v.push(c);
    }
    v
}

/// Appends one character; this is `String::push`, which adds the character
/// at the end and changes nothing else.
#[verifier::external_body]
fn push_char(s: &mut String, c: char)
    ensures
        final(s)@ == old(s)@.push(c),
{
    s.push(c);
}

/// The string whose characters are those of `v`, in order.
pub fn string_of(v: &Vec<char>) -> (s: String)
    ensures
        s@ == v@,
{
    let mut s = String::new();
    let mut i: usize = 0;
    while i < v.len()
        invariant
            i <= v.len(),
            s@ == v@.take(i as int),
        decreases v.len() - i,
    {
        push_char(&mut s, v[i]);
        i += 1;
    }
    s
}

/// What the character `c` counts as a digit in base `radix` (2 to 36): the
/// ten digits, then the letters of either case.
pub open spec fn digit_value(c: char, radix: int) -> Option<int> {
    let d: int = if '0' <= c <= '9' {
        c as int - '0' as int
    } else if 'a' <= c <= 'z' {
        c as int - 'a' as int + 10
    } else if 'A' <= c <= 'Z' {
        c as int - 'A' as int + 10
    } else {
        radix
    };
    if d < radix {
        Some(d)
    } else {
        None
    }
}

/// The number that a run of digits writes in base `radix`; `None` where a
/// character is not a digit. The empty run writes zero.
pub open spec fn digits_value(s: Seq<char>, radix: int) -> Option<int>
    decreases s.len(),
{
    if s.len() == 0 {
        Some(0)
    } else {
        match (digits_value(s.drop_last(), radix), digit_value(s.last(), radix)) {
            (Some(high), Some(d)) => Some(high * radix + d),
            _ => None,
        }
    }
}

/// The number that `s` writes in base `radix`: an optional sign (`-` only
/// where `negative_allowed`) and at least one digit.
pub open spec fn signed_value(s: Seq<char>, radix: int, negative_allowed: bool) -> Option<int> {
    if s.len() == 0 {
        None
    } else if s[0] == '+' || (s[0] == '-' && negative_allowed) {
        if s.len() == 1 {
            None
        } else {
            match digits_value(s.skip(1), radix) {
                Some(n) => Some(if s[0] == '-' { -n } else { n }),
                None => None,
            }
        }
    } else {
        digits_value(s, radix)
    }
}

/// The number that a field holds: hexadecimal after the prefix `0x`, decimal
/// otherwise; `None` where the text writes no number or one outside
/// `lo ..= hi`.
pub open spec fn field_number(s: Seq<char>, negative_allowed: bool, lo: int, hi: int) -> Option<int> {
    let written = if s.len() >= 2 && s[0] == '0' && s[1] == 'x' {
        signed_value(s.skip(2), 16, negative_allowed)
    } else {
        signed_value(s, 10, negative_allowed)
    };
    match written {
        Some(n) if lo <= n <= hi => Some(n),
        _ => None,
    }
}

/// A run of digits that is cut short writes no more than the whole run, and
/// is a run of digits if the whole is.
pub proof fn lemma_digits_prefix(s: Seq<char>, radix: int, n: int)
    requires
        2 <= radix <= 36,
        0 <= n <= s.len(),
    ensures
        digits_value(s, radix) is Some ==> digits_value(s.take(n), radix) is Some
            && 0 <= digits_value(s.take(n), radix)->0 <= digits_value(s, radix)->0,
    decreases s.len(),
{
    if n == s.len() {
        assert(s.take(n) =~= s);
        if s.len() > 0 {
            lemma_digits_prefix(s.drop_last(), radix, n - 1);
            assert(s.drop_last().take(n - 1) =~= s.drop_last());
            if digits_value(s, radix) is Some {
                let high = digits_value(s.drop_last(), radix)->0;
                assert(high * radix >= 0) by (nonlinear_arith)
                    requires
                        high >= 0,
                        radix >= 2,
                ;
            }
        }
    } else {
        lemma_digits_prefix(s.drop_last(), radix, n);
        assert(s.drop_last().take(n) =~= s.take(n));
        if digits_value(s, radix) is Some {
            let high = digits_value(s.drop_last(), radix)->0;
            assert(high * radix >= high) by (nonlinear_arith)
                requires
                    high >= 0,
                    radix >= 2,
            ;
        }
    }
}

/// The digit that `c` is in base `radix`.
fn digit_of(c: char, radix: u32) -> (d: Option<u32>)
    requires
        2 <= radix <= 36,
    ensures
        match d {
            Some(v) => digit_value(c, radix as int) == Some(v as int) && v < radix,
            None => digit_value(c, radix as int) is None,
        },
{
    let v: u32 = if '0' <= c && c <= '9' {
        c as u32 - '0' as u32
    } else if 'a' <= c && c <= 'z' {
        c as u32 - 'a' as u32 + 10
    } else if 'A' <= c && c <= 'Z' {
        c as u32 - 'A' as u32 + 10
    } else {
        radix
    };
    if v < radix {
        Some(v)
    } else {
        None
    }
}

/// Reads the digits `s[from..]` in base `radix`: the number that they write
/// where it is at most `limit`, and `limit + 1` where it is more.
fn read_digits_capped(s: &Vec<char>, from: usize, radix: u32, limit: u128) -> (r: Option<u128>)
    requires
        2 <= radix <= 36,
        from <= s.len(),
        limit <= 0xffff_ffff_ffff_ffff,
    ensures
        match r {
            Some(n) => match digits_value(s@.skip(from as int), radix as int) {
                Some(v) => n == if v <= limit {
                    v
                } else {
                    limit + 1
                },
                None => false,
            },
            None => digits_value(s@.skip(from as int), radix as int) is None,
        },
{
    let ghost run = s@.skip(from as int);
    let mut acc: u128 = 0;
    let mut i: usize = from;
    while i < s.len()
        invariant
            2 <= radix <= 36,
            from <= i <= s.len(),
            limit <= 0xffff_ffff_ffff_ffff,
            run == s@.skip(from as int),
            digits_value(run.take(i - from), radix as int) is Some,
            acc == if digits_value(run.take(i - from), radix as int)->0 <= limit {
                digits_value(run.take(i - from), radix as int)->0
            } else {
                limit + 1
            },
            0 <= digits_value(run.take(i - from), radix as int)->0,
        decreases s.len() - i,
    {
        let ghost before = digits_value(run.take(i - from), radix as int)->0;
        proof {
            assert(run.take(i - from + 1).drop_last() =~= run.take(i - from));
            assert(run.take(i - from + 1).last() == s@[i as int]);
        }
        match digit_of(s[i], radix) {
            None => {
                proof {
                    if digits_value(run, radix as int) is Some {
                        lemma_digits_prefix(run, radix as int, i - from + 1);
                    }
                }
                return None;
            },
            Some(d) => {
                proof {
                    assert(before * radix + d >= before) by (nonlinear_arith)
                        requires
                            before >= 0,
                            radix >= 2,
                            d >= 0,
                    ;
                    assert(acc * radix + d >= acc) by (nonlinear_arith)
                        requires
                            acc >= 0,
                            radix >= 2,
                            d >= 0,
                    ;
                    assert(acc * radix + d <= 0x1_0000_0000_0000_0000 * 36 + 36) by (nonlinear_arith)
                        requires
                            acc <= 0x1_0000_0000_0000_0000,
                            radix <= 36,
                            d < radix,
                    ;
                }
                let next: u128 = acc * (radix as u128) + (d as u128);
                acc = if next > limit {
                    limit + 1
                } else {
                    next
                };
            },
        }
        i += 1;
    }
    proof {
        assert(run.take(i - from) =~= run);
    }
    Some(acc)
}

/// Reads the digits `s[from..]` in base `radix`, as long as the number that
/// they write is at most `limit`.
fn read_digits(s: &Vec<char>, from: usize, radix: u32, limit: u64) -> (r: Option<u64>)
    requires
        2 <= radix <= 36,
        from <= s.len(),
    ensures
        match r {
            Some(n) => digits_value(s@.skip(from as int), radix as int) == Some(n as int) && n
                <= limit,
            None => match digits_value(s@.skip(from as int), radix as int) {
                Some(n) => n > limit,
                None => true,
            },
        },
{
    match read_digits_capped(s, from, radix, limit as u128) {
        Some(n) => if n <= (limit as u128) {
            Some(n as u64)
        } else {
            None
        },
        None => None,
    }
}

/// Reads an optionally signed number in base `radix` from `s[from..]`.
fn read_signed(s: &Vec<char>, from: usize, radix: u32, negative_allowed: bool, lo: i64, hi: i64) -> (r:
    Option<i64>)
    requires
        2 <= radix <= 36,
        from <= s.len(),
        -0x8000_0000 <= lo <= 0 <= hi <= 0xffff_ffff,
    ensures
        r.is_some() == (signed_value(s@.skip(from as int), radix as int, negative_allowed) is Some
            && lo <= signed_value(s@.skip(from as int), radix as int, negative_allowed)->0 <= hi),
        r is Some ==> signed_value(s@.skip(from as int), radix as int, negative_allowed) == Some(
            r->0 as int,
        ),
{
    let ghost run = s@.skip(from as int);
    if from == s.len() {
        return None;
    }
    let first = s[from];
    assert(run[0] == first);
    if first == '+' || (first == '-' && negative_allowed) {
        if s.len() - from == 1 {
            return None;
        }
        assert(run.skip(1) =~= s@.skip(from + 1));
        if first == '-' {
            match read_digits(s, from + 1, radix, 0x8000_0000) {
                Some(n) => {
                    let v: i64 = -(n as i64);
                    if v >= lo {
                        Some(v)
                    } else {
                        None
                    }
                },
                None => None,
            }
        } else {
            match read_digits(s, from + 1, radix, hi as u64) {
                Some(n) => Some(n as i64),
                None => None,
            }
        }
    } else {
        match read_digits(s, from, radix, hi as u64) {
            Some(n) => Some(n as i64),
            None => None,
        }
    }
}

/// Reads the number that a field holds, as `field_number` defines it.
fn read_field_number(s: &str, negative_allowed: bool, lo: i64, hi: i64) -> (r: Option<i64>)
    requires
        -0x8000_0000 <= lo <= 0 <= hi <= 0xffff_ffff,
    ensures
        match r {
            Some(n) => field_number(s@, negative_allowed, lo as int, hi as int) == Some(n as int),
            None => field_number(s@, negative_allowed, lo as int, hi as int) is None,
        },
{
    let chars = chars_of(s);
    if chars.len() >= 2 && chars[0] == '0' && chars[1] == 'x' {
        read_signed(&chars, 2, 16, negative_allowed, lo, hi)
    } else {
        proof {
            assert(chars@.skip(0) =~= chars@);
        }
        read_signed(&chars, 0, 10, negative_allowed, lo, hi)
    }
}

/// The unsigned 32-bit number that a field holds.
pub fn parse_u32(s: &str) -> (r: Option<u32>)
    ensures
        match r {
            Some(n) => field_number(s@, false, 0, u32::MAX as int) == Some(n as int),
            None => field_number(s@, false, 0, u32::MAX as int) is None,
        },
{
    match read_field_number(s, false, 0, 0xffff_ffff) {
        Some(n) => Some(n as u32),
        None => None,
    }
}

/// The signed 32-bit number that a field holds.
pub fn parse_i32(s: &str) -> (r: Option<i32>)
    ensures
        match r {
            Some(n) => field_number(s@, true, i32::MIN as int, i32::MAX as int) == Some(n as int),
            None => field_number(s@, true, i32::MIN as int, i32::MAX as int) is None,
        },
{
    match read_field_number(s, true, -0x8000_0000, 0x7fff_ffff) {
        Some(n) => Some(n as i32),
        None => None,
    }
}

/// Whether `s` writes a decimal number, with or without a sign, that is
/// greater than `limit`.
pub fn decimal_exceeds(s: &str, limit: u32) -> (b: bool)
    ensures
        b == match signed_value(s@, 10, true) {
            Some(n) => n > limit,
            None => false,
        },
{
    let chars = chars_of(s);
    if chars.len() == 0 {
        return false;
    }
    let first = chars[0];
    if first == '-' {
        proof {
            if chars.len() > 1 && digits_value(chars@.skip(1), 10) is Some {
                lemma_digits_prefix(chars@.skip(1), 10, 0);
            }
        }
        false
    } else if first == '+' {
        if chars.len() == 1 {
            false
        } else {
            match read_digits_capped(&chars, 1, 10, limit as u128) {
                Some(n) => n > (limit as u128),
                None => false,
            }
        }
    } else {
        proof {
            assert(chars@.skip(0) =~= chars@);
        }
        match read_digits_capped(&chars, 0, 10, limit as u128) {
            Some(n) => n > (limit as u128),
            None => false,
        }
    }
}

/// The unsigned 64-bit number that `s` writes in decimal, with or without a
/// leading `+`.
pub fn parse_u64(s: &str) -> (r: Option<u64>)
    ensures
        match r {
            Some(n) => signed_value(s@, 10, false) == Some(n as int),
            None => match signed_value(s@, 10, false) {
                Some(n) => n > u64::MAX,
                None => true,
            },
        },
{
    let chars = chars_of(s);
    if chars.len() == 0 {
        None
    } else if chars[0] == '+' {
        if chars.len() == 1 {
            None
        } else {
            read_digits(&chars, 1, 10, u64::MAX)
        }
    } else {
        proof {
            assert(chars@.skip(0) =~= chars@);
        }
        read_digits(&chars, 0, 10, u64::MAX)
    }
}

} // verus!
