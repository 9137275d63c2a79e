//! The compiler's settings, and the reading of the optimize level.
use vstd::prelude::*;

use std::path::PathBuf;

verus! {

#[verifier::external_type_specification]
#[verifier::external_body]
pub struct ExPathBuf(PathBuf);

/// What the compiler writes: the tokens, the syntax tree, LLVM IR,
/// assembly, an object file or an executable.
#[derive(Copy, Clone, PartialEq, Eq, Structural, PartialOrd, Ord, Debug)]
pub enum OutputFormatEnum {
    TOKENS,
    AST,
    IR,
    ASM,
    OBJ,
    EXE,
}

/// The compiler's settings.
#[derive(Debug)]
pub struct Args {
    /// The optimize level, 0 to 3.
    pub optimization: usize,
    /// What to write.
    pub output_format: OutputFormatEnum,
    /// Where to write it.
    pub output_path: PathBuf,
    /// The source file.
    pub input_path: PathBuf,
}

/// The lowest optimize level.
pub const OPTIMIZE_LEVEL_MIN: usize = 0;

/// The highest optimize level.
pub const OPTIMIZE_LEVEL_MAX: usize = 3;

pub open spec fn is_decimal_digit(c: char) -> bool {
    '0' <= c && c <= '9'
}

pub open spec fn digit_value(c: char) -> nat {
    (c as nat - '0' as nat) as nat
}

/// The number that a string of decimal digits stands for.
pub open spec fn digits_value(d: Seq<char>) -> nat
    decreases d.len(),
{
    if d.len() == 0 {
        0
    } else {
        digits_value(d.drop_last()) * 10 + digit_value(d.last())
    }
}

/// `s` without a leading `+`.
pub open spec fn unsigned_digits(s: Seq<char>) -> Seq<char> {
    if s.len() > 0 && s[0] == '+' {
        s.drop_first()
    } else {
        s
    }
}

/// The number that `usize::from_str` reads from `s`: an optional `+`, then
/// one or more decimal digits, whose value fits in a `usize`.
pub open spec fn spec_parse_usize(s: Seq<char>) -> Option<nat> {
    let d = unsigned_digits(s);
    if d.len() > 0 && (forall|i: int| 0 <= i < d.len() ==> is_decimal_digit(#[trigger] d[i]))
        && digits_value(d) <= usize::MAX {
        Some(digits_value(d))
    } else {
        None
    }
}

pub open spec fn invalid_level_message(s: Seq<char>) -> Seq<char> {
    "`"@ + s + "` isn't a valid optimize level number"@
}

pub open spec fn level_range_message() -> Seq<char> {
    "Optimize level can only in range 0-3"@
}

proof fn lemma_digits_value_prefix(d: Seq<char>, k: int)
    requires
        0 <= k <= d.len(),
    ensures
        digits_value(d.subrange(0, k)) <= digits_value(d),
    decreases d.len() - k,
{
    if k < d.len() {
        lemma_digits_value_prefix(d, k + 1);
        assert(d.subrange(0, k + 1).drop_last() =~= d.subrange(0, k));
    } else {
        assert(d.subrange(0, k) =~= d);
    }
}

/// Reads an optimize level: the number that `usize::from_str` reads from
/// `s`, if it is one of 0 to 3.
pub fn port_in_range(s: &str) -> (r: Result<usize, String>)
    ensures
        match r {
            Ok(n) => spec_parse_usize(s@) == Some(n as nat) && n <= OPTIMIZE_LEVEL_MAX,
            Err(m) => match spec_parse_usize(s@) {
                None => m@ == invalid_level_message(s@),
                Some(n) => n > OPTIMIZE_LEVEL_MAX && m@ == level_range_message(),
            },
        },
{
    let len = s.unicode_len();
    let mut start: usize = 0;
    if len > 0 && s.get_char(0) == '+' {
        start = 1;
    }
    let ghost d = unsigned_digits(s@);
    assert(d =~= s@.subrange(start as int, len as int));
    let mut ok = start < len;
    let mut v: usize = 0;
    let mut i: usize = start;
    while i < len && ok
        invariant
            start <= i <= len,
            len == s@.len(),
            d == s@.subrange(start as int, len as int),
            d == unsigned_digits(s@),
            ok ==> forall|j: int| start <= j < i ==> is_decimal_digit(#[trigger] s@[j]),
            ok ==> v == digits_value(s@.subrange(start as int, i as int)),
            !ok ==> spec_parse_usize(s@) is None,
            start < len || !ok,
        decreases len - i,
    {
        let c = s.get_char(i);
        if '0' <= c && c <= '9' {
            let digit = (c as u32 - '0' as u32) as usize;
            assert(digit == digit_value(c));
            assert(s@.subrange(start as int, i + 1).drop_last() =~= s@.subrange(start as int, i as int));
            assert(digits_value(s@.subrange(start as int, i + 1)) == digits_value(
                s@.subrange(start as int, i as int),
            ) * 10 + digit);
            match v.checked_mul(10) {
                Some(t) => match t.checked_add(digit) {
                    Some(n) => {
                        v = n;
                    },
                    None => {
                        ok = false;
                    },
                },
                None => {
                    ok = false;
                },
            }
            if !ok {
                proof {
                    assert(digits_value(s@.subrange(start as int, i + 1)) > usize::MAX);
                    if forall|j: int| 0 <= j < d.len() ==> is_decimal_digit(#[trigger] d[j]) {
                        lemma_digits_value_prefix(d, i + 1 - start);
                        assert(d.subrange(0, i + 1 - start) =~= s@.subrange(start as int, i + 1));
                        assert(digits_value(d) > usize::MAX);
                    }
                    assert(spec_parse_usize(s@) is None);
                }
            }
        } else {
            ok = false;
            assert(d[i - start] == c);
            assert(!is_decimal_digit(d[i - start]));
            assert(spec_parse_usize(s@) is None);
        }
        i = i + 1;
    }
    if !ok {
        let mut m = String::from_str("`");
        m.append(s);
        m.append("` isn't a valid optimize level number");
        return Err(m);
    }
    assert(s@.subrange(start as int, i as int) =~= d);
    if v <= OPTIMIZE_LEVEL_MAX {
        Ok(v)
    } else {
        Err(String::from_str("Optimize level can only in range 0-3"))
    }
}

} // verus!
