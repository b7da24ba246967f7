//! Primitives of the wire format: the protocol is newline-delimited JSON
//! in the canonical form the peer emits — no insignificant whitespace,
//! fields in a fixed order, numbers in canonical decimal. The parsers
//! treat the format as a closed contract: any deviation is a decode
//! error. Each executable parser is proved to compute exactly its
//! specification-level counterpart.

use vstd::prelude::*;
use vstd::string::StrSliceExecFns;

verus! {

/// Whether the literal occurs in `s` at position `i`.
pub open spec fn lit_at(s: Seq<char>, i: int, lit: Seq<char>) -> bool {
    0 <= i && i + lit.len() <= s.len() && s.subrange(i, i + lit.len()) == lit
}

/// Matches a fixed literal at position `i`, returning the position just
/// after it.
pub fn expect_lit(s: &Vec<char>, i: usize, lit: &str) -> (r: Option<usize>)
    requires
        i <= s@.len(),
    ensures
        match r {
            Some(j) => j == i + lit@.len() && lit_at(s@, i as int, lit@) && j <= s@.len(),
            None => !lit_at(s@, i as int, lit@),
        },
{
    let n = lit.unicode_len();
    if n > s.len() - i {
        proof {
            assert(!lit_at(s@, i as int, lit@));
        }
        return None;
    }
    let mut j: usize = 0;
    while j < n
        invariant
            0 <= j <= n,
            i + n <= s.len(),
            s.len() == s@.len(),
            n == lit@.len(),
            forall|k: int| 0 <= k < j ==> s@[i + k] == lit@[k],
        decreases n - j,
    {
        if s[i + j] != lit.get_char(j) {
            proof {
                assert(s@.subrange(i as int, i + lit@.len())[j as int] != lit@[j as int]);
            }
            return None;
        }
        j += 1;
    }
    proof {
        assert(s@.subrange(i as int, i + lit@.len()) =~= lit@);
    }
    Some(i + n)
}

/// Whether the character is a decimal digit.
pub open spec fn is_digit(c: char) -> bool {
    48 <= c as u32 <= 57
}

/// The value of a digit character.
pub open spec fn digit_val(c: char) -> u64 {
    (c as u32 - 48) as u64
}

/// Reads further digits onto an already-read value; fails on overflow.
pub open spec fn sp_u64_loop(s: Seq<char>, i: int, acc: u64) -> Option<(u64, int)>
    decreases s.len() - i,
{
    if i < 0 || i >= s.len() || !is_digit(s[i]) {
        Some((acc, i))
    } else if acc > (u64::MAX - digit_val(s[i])) / 10 {
        None
    } else {
        sp_u64_loop(s, i + 1, (10 * acc + digit_val(s[i])) as u64)
    }
}

/// A canonical decimal `u64` at position `i`: at least one digit, no
/// leading zero except for zero itself, value within range.
pub open spec fn sp_u64(s: Seq<char>, i: int) -> Option<(u64, int)> {
    if 0 <= i < s.len() && is_digit(s[i]) {
        if s[i] == '0' {
            Some((0, i + 1))
        } else {
            sp_u64_loop(s, i, 0)
        }
    } else {
        None
    }
}

/// The position a number parse reaches never runs backwards or past the
/// end.
pub proof fn lemma_sp_u64_loop_bounds(s: Seq<char>, i: int, acc: u64)
    requires
        0 <= i <= s.len(),
    ensures
        match sp_u64_loop(s, i, acc) {
            Some((_, j)) => i <= j <= s.len(),
            None => true,
        },
    decreases s.len() - i,
{
    if i < s.len() && is_digit(s[i]) && acc <= (u64::MAX - digit_val(s[i])) / 10 {
        lemma_sp_u64_loop_bounds(s, i + 1, (10 * acc + digit_val(s[i])) as u64);
    }
}

/// Parses a canonical decimal `u64`.
pub fn p_u64(s: &Vec<char>, i: usize) -> (r: Option<(u64, usize)>)
    requires
        i <= s@.len(),
    ensures
        match r {
            Some((v, j)) => sp_u64(s@, i as int) == Some((v, j as int)) && i < j <= s@.len(),
            None => sp_u64(s@, i as int) is None,
        },
{
    if i >= s.len() {
        return None;
    }
    let c = s[i];
    let cu = c as u32;
    if !(48 <= cu && cu <= 57) {
        return None;
    }
    if c == '0' {
        return Some((0, i + 1));
    }
    let mut acc: u64 = 0;
    let mut j: usize = i;
    proof {
        lemma_sp_u64_loop_bounds(s@, i as int, 0);
    }
    loop
        invariant
            i <= j <= s@.len(),
            i < s@.len(),
            is_digit(s@[i as int]),
            s@[i as int] != '0',
            j == i ==> acc == 0,
            s.len() == s@.len(),
            sp_u64_loop(s@, i as int, 0) == sp_u64_loop(s@, j as int, acc),
        decreases s@.len() - j,
    {
        if j >= s.len() {
            return Some((acc, j));
        }
        let d = s[j];
        let du = d as u32;
        if !(48 <= du && du <= 57) {
            if j == i {
                proof {
                    assert(false);
                }
            }
            return Some((acc, j));
        }
        let dv = (du - 48) as u64;
        if acc > (u64::MAX - dv) / 10 {
            return None;
        }
        proof {
            assert(acc <= (u64::MAX - dv) / 10);
            assert(10 * acc + dv <= u64::MAX) by {
                assert(10 * ((u64::MAX - dv) / 10) <= u64::MAX - dv);
            }
        }
        acc = 10 * acc + dv;
        j += 1;
    }
}

/// A canonical decimal that fits in a `u8`.
pub open spec fn sp_u8(s: Seq<char>, i: int) -> Option<(u8, int)> {
    match sp_u64(s, i) {
        Some((v, j)) => if v <= 255 {
            Some((v as u8, j))
        } else {
            None
        },
        None => None,
    }
}

/// Parses a canonical decimal `u8`.
pub fn p_u8(s: &Vec<char>, i: usize) -> (r: Option<(u8, usize)>)
    requires
        i <= s@.len(),
    ensures
        match r {
            Some((v, j)) => sp_u8(s@, i as int) == Some((v, j as int)) && i < j <= s@.len(),
            None => sp_u8(s@, i as int) is None,
        },
{
    match p_u64(s, i) {
        Some((v, j)) => if v <= 255 {
            Some((v as u8, j))
        } else {
            None
        },
        None => None,
    }
}

/// A canonical decimal that fits in a `usize`.
pub open spec fn sp_usize(s: Seq<char>, i: int) -> Option<(usize, int)> {
    match sp_u64(s, i) {
        Some((v, j)) => if v <= usize::MAX {
            Some((v as usize, j))
        } else {
            None
        },
        None => None,
    }
}

/// Parses a canonical decimal `usize`.
pub fn p_usize(s: &Vec<char>, i: usize) -> (r: Option<(usize, usize)>)
    requires
        i <= s@.len(),
    ensures
        match r {
            Some((v, j)) => sp_usize(s@, i as int) == Some((v, j as int)) && i < j <= s@.len(),
            None => sp_usize(s@, i as int) is None,
        },
{
    match p_u64(s, i) {
        Some((v, j)) => if v <= usize::MAX as u64 {
            Some((v as usize, j))
        } else {
            None
        },
        None => None,
    }
}

/// A boolean literal.
pub open spec fn sp_bool(s: Seq<char>, i: int) -> Option<(bool, int)> {
    if lit_at(s, i, "true"@) {
        Some((true, i + "true"@.len()))
    } else if lit_at(s, i, "false"@) {
        Some((false, i + "false"@.len()))
    } else {
        None
    }
}

/// Parses a boolean literal.
pub fn p_bool(s: &Vec<char>, i: usize) -> (r: Option<(bool, usize)>)
    requires
        i <= s@.len(),
    ensures
        match r {
            Some((v, j)) => sp_bool(s@, i as int) == Some((v, j as int)) && i <= j <= s@.len(),
            None => sp_bool(s@, i as int) is None,
        },
{
    match expect_lit(s, i, "true") {
        Some(j) => Some((true, j)),
        None => match expect_lit(s, i, "false") {
            Some(j) => Some((false, j)),
            None => None,
        },
    }
}

/// Reads string content up to the closing quote, decoding the escapes the
/// peer emits; a raw control character or an unknown escape is an error.
pub open spec fn sp_str_loop(s: Seq<char>, i: int, acc: Seq<char>) -> Option<(Seq<char>, int)>
    decreases s.len() - i,
{
    if i < 0 || i >= s.len() {
        None
    } else if s[i] == '"' {
        Some((acc, i + 1))
    } else if s[i] == '\\' {
        if i + 1 < s.len() {
            let c = s[i + 1];
            if c == '"' {
                sp_str_loop(s, i + 2, acc.push('"'))
            } else if c == '\\' {
                sp_str_loop(s, i + 2, acc.push('\\'))
            } else if c == 'n' {
                sp_str_loop(s, i + 2, acc.push('\n'))
            } else if c == 'r' {
                sp_str_loop(s, i + 2, acc.push('\r'))
            } else if c == 't' {
                sp_str_loop(s, i + 2, acc.push('\t'))
            } else {
                None
            }
        } else {
            None
        }
    } else if (s[i] as u32) < 32 {
        None
    } else {
        sp_str_loop(s, i + 1, acc.push(s[i]))
    }
}

/// A string literal: an opening quote, escaped content, a closing quote.
pub open spec fn sp_string(s: Seq<char>, i: int) -> Option<(Seq<char>, int)> {
    if 0 <= i < s.len() && s[i] == '"' {
        sp_str_loop(s, i + 1, Seq::empty())
    } else {
        None
    }
}

/// The position a string parse reaches never runs backwards or past the
/// end.
pub proof fn lemma_sp_str_loop_bounds(s: Seq<char>, i: int, acc: Seq<char>)
    requires
        0 <= i <= s.len(),
    ensures
        match sp_str_loop(s, i, acc) {
            Some((_, j)) => i < j <= s.len(),
            None => true,
        },
    decreases s.len() - i,
{
    if i < s.len() && s[i] != '"' {
        if s[i] == '\\' {
            if i + 1 < s.len() {
                let c = s[i + 1];
                if c == '"' {
                    lemma_sp_str_loop_bounds(s, i + 2, acc.push('"'));
                } else if c == '\\' {
                    lemma_sp_str_loop_bounds(s, i + 2, acc.push('\\'));
                } else if c == 'n' {
                    lemma_sp_str_loop_bounds(s, i + 2, acc.push('\n'));
                } else if c == 'r' {
                    lemma_sp_str_loop_bounds(s, i + 2, acc.push('\r'));
                } else if c == 't' {
                    lemma_sp_str_loop_bounds(s, i + 2, acc.push('\t'));
                }
            }
        } else if (s[i] as u32) >= 32 {
            lemma_sp_str_loop_bounds(s, i + 1, acc.push(s[i]));
        }
    }
}

/// Parses a string literal, returning its decoded content.
pub fn p_string(s: &Vec<char>, i: usize) -> (r: Option<(Vec<char>, usize)>)
    requires
        i <= s@.len(),
    ensures
        match r {
            Some((v, j)) => sp_string(s@, i as int) == Some((v@, j as int)) && i < j <= s@.len(),
            None => sp_string(s@, i as int) is None,
        },
{
    if i >= s.len() || s[i] != '"' {
        return None;
    }
    let mut acc: Vec<char> = Vec::new();
    let mut j: usize = i + 1;
    proof {
        lemma_sp_str_loop_bounds(s@, i + 1, Seq::empty());
        assert(acc@ =~= Seq::<char>::empty());
    }
    loop
        invariant
            i < j <= s@.len() + 1,
            j <= s@.len() + 1,
            s.len() == s@.len(),
            sp_string(s@, i as int) == sp_str_loop(s@, j as int, acc@),
        decreases s@.len() + 1 - j,
    {
        if j >= s.len() {
            return None;
        }
        let c = s[j];
        if c == '"' {
            return Some((acc, j + 1));
        }
        if c == '\\' {
            if j + 1 >= s.len() {
                return None;
            }
            let e = s[j + 1];
            if e == '"' {
                acc.push('"');
            } else if e == '\\' {
                acc.push('\\');
            } else if e == 'n' {
                acc.push('\n');
            } else if e == 'r' {
                acc.push('\r');
            } else if e == 't' {
                acc.push('\t');
            } else {
                return None;
            }
            j += 2;
        } else {
            if (c as u32) < 32 {
                return None;
            }
            acc.push(c);
            j += 1;
        }
    }
}

} // verus!
