//! Decimal text of numbers.
use vstd::prelude::*;

verus! {

/// The character of a decimal digit.
pub open spec fn spec_digit_char(d: nat) -> char {
    (d + 48) as char
}

/// The decimal text of `n`, with no leading zeros.
pub open spec fn spec_decimal(n: nat) -> Seq<char>
    decreases n,
{
    if n < 10 {
        seq![spec_digit_char(n)]
    } else {
        spec_decimal(n / 10).push(spec_digit_char(n % 10))
    }
}

fn digit_str(d: u8) -> (r: &'static str)
    requires
        d < 10,
    ensures
        r@ == seq![spec_digit_char(d as nat)],
{
    proof {
        reveal_strlit("0");
        reveal_strlit("1");
        reveal_strlit("2");
        reveal_strlit("3");
        reveal_strlit("4");
        reveal_strlit("5");
        reveal_strlit("6");
        reveal_strlit("7");
        reveal_strlit("8");
        reveal_strlit("9");
    }
    let r = match d {
        0 => "0",
        1 => "1",
        2 => "2",
        3 => "3",
        4 => "4",
        5 => "5",
        6 => "6",
        7 => "7",
        8 => "8",
        _ => "9",
    };
    assert(r@ =~= seq![spec_digit_char(d as nat)]);
    r
}

/// The decimal text of `v`.
pub fn decimal_string(v: u64) -> (r: String)
    ensures
        r@ == spec_decimal(v as nat),
{
    let mut digits: Vec<u8> = Vec::new();
    let mut n = v;
    let ghost mut tail: Seq<char> = Seq::empty();
    loop
        invariant_except_break
            n > 0 || digits@.len() == 0,
            spec_decimal(v as nat) == spec_decimal(n as nat) + tail,
        invariant
            tail.len() == digits@.len(),
            forall|i: int|
                0 <= i < digits@.len() ==> #[trigger] digits@[i] < 10 && tail[digits@.len() - 1
                    - i] == spec_digit_char(digits@[i] as nat),
        ensures
            spec_decimal(v as nat) == tail,
        decreases n,
    {
        let d = (n % 10) as u8;
        let ghost old_tail = tail;
        let ghost old_n = n;
        digits.push(d);
        proof {
            tail = seq![spec_digit_char(d as nat)] + old_tail;
        }
        n = n / 10;
        if n == 0 {
            assert(spec_decimal(old_n as nat) == seq![spec_digit_char(d as nat)]);
            assert(spec_decimal(v as nat) == tail);
            break;
        }
        assert(spec_decimal(old_n as nat) == spec_decimal(n as nat).push(spec_digit_char(d as nat)));
        assert(spec_decimal(v as nat) =~= spec_decimal(n as nat) + tail);
    }
    let mut r = String::new();
    let mut k = digits.len();
    while k > 0
        invariant
            k <= digits@.len(),
            tail.len() == digits@.len(),
            spec_decimal(v as nat) == tail,
            forall|i: int|
                0 <= i < digits@.len() ==> #[trigger] digits@[i] < 10 && tail[digits@.len() - 1
                    - i] == spec_digit_char(digits@[i] as nat),
            r@ == tail.take(digits@.len() - k),
        decreases k,
    {
        k = k - 1;
        let ghost before = r@;
        r.append(digit_str(digits[k]));
        assert(r@ =~= tail.take(digits@.len() - k));
    }
    assert(tail.take(digits@.len() as int) =~= tail);
    r
}

} // verus!
