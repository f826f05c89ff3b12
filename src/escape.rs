//! Backslash escapes, expanded the way `echo -e` expands them.

use vstd::prelude::*;

use crate::text::{chars_of, push_char};

verus! {

/// What a two-character escape `\c` stands for, if `c` names one.
pub open spec fn simple_escape(c: char) -> Option<char> {
    if c == '\\' {
        Some('\\')
    } else if c == 'a' {
        Some('\x07')
    } else if c == 'b' {
        Some('\x08')
    } else if c == 'e' {
        Some('\x1b')
    } else if c == 'f' {
        Some('\x0c')
    } else if c == 'n' {
        Some('\n')
    } else if c == 'r' {
        Some('\r')
    } else if c == 't' {
        Some('\t')
    } else if c == 'v' {
        Some('\x0b')
    } else {
        None
    }
}

/// Whether `c` is a digit of the given base (sixteen when `hex`, else eight).
pub open spec fn is_digit(c: char, hex: bool) -> bool {
    if hex {
        ('0' <= c && c <= '9') || ('a' <= c && c <= 'f') || ('A' <= c && c <= 'F')
    } else {
        '0' <= c && c <= '7'
    }
}

/// The value of a digit `c` for which `is_digit(c, hex)` holds.
pub open spec fn digit_value(c: char) -> int {
    if 'a' <= c && c <= 'f' {
        c as int - 'a' as int + 10
    } else if 'A' <= c && c <= 'F' {
        c as int - 'A' as int + 10
    } else {
        c as int - '0' as int
    }
}

pub open spec fn base(hex: bool) -> int {
    if hex {
        16
    } else {
        8
    }
}

/// How many digits, at most `max`, follow in `s` from position `i` on.
pub open spec fn digit_run(s: Seq<char>, i: int, max: nat, hex: bool) -> nat
    decreases max,
{
    if max == 0 || i < 0 || i >= s.len() || !is_digit(s[i], hex) {
        0
    } else {
        1 + digit_run(s, i + 1, (max - 1) as nat, hex)
    }
}

/// The number written by the `n` digits of `s` from position `i` on.
pub open spec fn digits_value(s: Seq<char>, i: int, n: nat, hex: bool) -> int
    decreases n,
{
    if n == 0 {
        0
    } else {
        digits_value(s, i, (n - 1) as nat, hex) * base(hex) + digit_value(s[i + n - 1])
    }
}

/// The character whose code is the byte `v` stands for (its low eight bits).
pub open spec fn byte_char(v: int) -> char {
    ((v % 256) as u8) as char
}

/// `s` from position `i` on, with its escapes expanded; `\c` ends it.
/// An escape that is not recognised is kept as written.
pub open spec fn expand_from(s: Seq<char>, i: int) -> Seq<char>
    decreases s.len() - i via expand_from_decreases
{
    if i < 0 || i >= s.len() {
        seq![]
    } else if s[i] != '\\' || i + 1 >= s.len() {
        seq![s[i]] + expand_from(s, i + 1)
    } else {
        let e = s[i + 1];
        if e == 'c' {
            seq![]
        } else if simple_escape(e) is Some {
            seq![simple_escape(e)->0] + expand_from(s, i + 2)
        } else if e == '0' && digit_run(s, i + 2, 3, false) > 0 {
            let n = digit_run(s, i + 2, 3, false);
            seq![byte_char(digits_value(s, i + 2, n, false))] + expand_from(s, i + 2 + n)
        } else if e == 'x' && digit_run(s, i + 2, 2, true) > 0 {
            let n = digit_run(s, i + 2, 2, true);
            seq![byte_char(digits_value(s, i + 2, n, true))] + expand_from(s, i + 2 + n)
        } else {
            seq!['\\'] + expand_from(s, i + 1)
        }
    }
}

/// A run of digits never reaches past the end of the text.
pub proof fn lemma_digit_run_bound(s: Seq<char>, i: int, max: nat, hex: bool)
    ensures
        0 <= i <= s.len() ==> digit_run(s, i, max, hex) <= s.len() - i,
        digit_run(s, i, max, hex) <= max,
    decreases max,
{
    if max > 0 {
        lemma_digit_run_bound(s, i + 1, (max - 1) as nat, hex);
    }
}

#[via_fn]
proof fn expand_from_decreases(s: Seq<char>, i: int) {
    lemma_digit_run_bound(s, i + 2, 3, false);
    lemma_digit_run_bound(s, i + 2, 2, true);
}

/// Expansion leaves a text without backslashes as it is.
pub proof fn lemma_expand_without_backslash(s: Seq<char>, i: int)
    requires
        0 <= i <= s.len(),
        forall|k: int| 0 <= k < s.len() ==> s[k] != '\\',
    ensures
        expand_from(s, i) == s.subrange(i, s.len() as int),
    decreases s.len() - i,
{
    if i < s.len() {
        lemma_expand_without_backslash(s, i + 1);
        assert(seq![s[i]] + s.subrange(i + 1, s.len() as int) =~= s.subrange(i, s.len() as int));
    } else {
        assert(s.subrange(i, s.len() as int) =~= Seq::<char>::empty());
    }
}

/// The whole of `s` with its escapes expanded.
pub open spec fn expanded(s: Seq<char>) -> Seq<char> {
    expand_from(s, 0)
}

/// The value of `c` as a digit of the given base, if it is one.
fn digit_of(c: char, hex: bool) -> (r: Option<u32>)
    ensures
        r is Some <==> is_digit(c, hex),
        r matches Some(d) ==> d as int == digit_value(c) && d < base(hex),
{
    if '0' <= c && c <= '7' {
        Some(c as u32 - '0' as u32)
    } else if !hex {
        None
    } else if '8' <= c && c <= '9' {
        Some(c as u32 - '0' as u32)
    } else if 'a' <= c && c <= 'f' {
        Some(c as u32 - 'a' as u32 + 10)
    } else if 'A' <= c && c <= 'F' {
        Some(c as u32 - 'A' as u32 + 10)
    } else {
        None
    }
}

/// Reads the digits, at most `max` of them, that stand in `s` from `start` on:
/// how many there are, and the number they write.
fn read_digits(s: &Vec<char>, start: usize, max: usize, hex: bool) -> (r: (usize, u32))
    requires
        start <= s@.len(),
        max <= 3,
    ensures
        r.0 as nat == digit_run(s@, start as int, max as nat, hex),
        r.1 as int == digits_value(s@, start as int, r.0 as nat, hex),
{
    let mut k: usize = 0;
    let mut value: u32 = 0;
    while k < max && k < s.len() - start
        invariant
            start <= s@.len(),
            max <= 3,
            k <= max,
            start + k <= s@.len(),
            digit_run(s@, start as int, max as nat, hex) == k + digit_run(
                s@,
                start + k,
                (max - k) as nat,
                hex,
            ),
            value as int == digits_value(s@, start as int, k as nat, hex),
            k == 0 ==> value < 1,
            k == 1 ==> value < 16,
            k == 2 ==> value < 256,
            k == 3 ==> value < 4096,
        decreases max - k,
    {
        match digit_of(s[start + k], hex) {
            Some(d) => {
                value = if hex {
                    value * 16 + d
                } else {
                    value * 8 + d
                };
                k = k + 1;
            },
            None => {
                return (k, value);
            },
        }
    }
    (k, value)
}

/// Expands the escapes of `text`: `\\`, `\a`, `\b`, `\e`, `\f`, `\n`,
/// `\r`, `\t`, `\v`, `\0NNN` (one to three octal digits) and `\xHH` (one or two
/// hex digits, both giving the character of that byte value); `\c` drops
/// the rest of the text, and any other backslash is kept as written.
pub fn interpret_escapes(text: &str) -> (r: String)
    ensures
        r@ == expanded(text@),
{
    let s = chars_of(text);
    let n = s.len();
    let mut out = String::new();
    let mut i: usize = 0;
    while i < n
        invariant
            n == s@.len(),
            s@ == text@,
            i <= n,
            expanded(s@) == out@ + expand_from(s@, i as int),
        decreases n - i,
    {
        let ghost before = out@;
        let c = s[i];
        if c != '\\' || i + 1 >= n {
            push_char(&mut out, c);
            assert(before.push(c) + expand_from(s@, i + 1) =~= before + expand_from(s@, i as int));
            i = i + 1;
        } else {
            let e = s[i + 1];
            if e == 'c' {
                assert(out@ + expand_from(s@, i as int) =~= out@);
                return out;
            }
            let simple = escape_of(e);
            if let Some(x) = simple {
                push_char(&mut out, x);
                assert(before.push(x) + expand_from(s@, i + 2) =~= before + expand_from(s@, i as int));
                i = i + 2;
            } else {
                proof {
                    lemma_digit_run_bound(s@, i + 2, 3, false);
                    lemma_digit_run_bound(s@, i + 2, 2, true);
                }
                let (len, value) = if e == '0' {
                    read_digits(&s, i + 2, 3, false)
                } else if e == 'x' {
                    read_digits(&s, i + 2, 2, true)
                } else {
                    (0, 0)
                };
                if len > 0 {
                    let b = (value % 256) as u8 as char;
                    push_char(&mut out, b);
                    assert(before.push(b) + expand_from(s@, i + 2 + len) =~= before + expand_from(s@, i as int));
                    i = i + 2 + len;
                } else {
                    push_char(&mut out, '\\');
                    assert(before.push('\\') + expand_from(s@, i + 1) =~= before + expand_from(s@, i as int));
                    i = i + 1;
                }
            }
        }
    }
    assert(out@ + expand_from(s@, i as int) =~= out@);
    out
}

/// The character a two-character escape `\e` stands for, if any.
fn escape_of(e: char) -> (r: Option<char>)
    ensures
        r == simple_escape(e),
{
    if e == '\\' {
        Some('\\')
    } else if e == 'a' {
        Some('\x07')
    } else if e == 'b' {
        Some('\x08')
    } else if e == 'e' {
        Some('\x1b')
    } else if e == 'f' {
        Some('\x0c')
    } else if e == 'n' {
        Some('\n')
    } else if e == 'r' {
        Some('\r')
    } else if e == 't' {
        Some('\t')
    } else if e == 'v' {
        Some('\x0b')
    } else {
        None
    }
}

} // verus!
