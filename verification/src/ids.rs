//! Identifier and digit-string helpers: bookmark ids are derived from
//! the wall clock, rendered in hexadecimal; permission bits are
//! rendered in octal.

use vstd::prelude::*;

verus! {

/// The character for one digit value below sixteen.
pub open spec fn digit_char(d: int) -> char {
    if d == 0 {
        '0'
    } else if d == 1 {
        '1'
    } else if d == 2 {
        '2'
    } else if d == 3 {
        '3'
    } else if d == 4 {
        '4'
    } else if d == 5 {
        '5'
    } else if d == 6 {
        '6'
    } else if d == 7 {
        '7'
    } else if d == 8 {
        '8'
    } else if d == 9 {
        '9'
    } else if d == 10 {
        'a'
    } else if d == 11 {
        'b'
    } else if d == 12 {
        'c'
    } else if d == 13 {
        'd'
    } else if d == 14 {
        'e'
    } else {
        'f'
    }
}

/// The digits of `n` in the given base, most significant first, with
/// no leading zeros (zero itself is the single digit '0').
pub open spec fn radix_digits(n: nat, base: nat) -> Seq<char>
    recommends
        2 <= base <= 16,
    decreases n,
    when 2 <= base
    via radix_digits_decreases
{
    if n < base {
        seq![digit_char(n as int)]
    } else {
        radix_digits(n / base, base) + seq![digit_char((n % base) as int)]
    }
}

#[via_fn]
proof fn radix_digits_decreases(n: nat, base: nat) {
    if n >= base {
        assert(n / base < n) by (nonlinear_arith)
            requires
                2 <= base,
                base <= n,
        ;
    }
}

/// One digit as a string slice.
fn digit_str(d: u64) -> (r: &'static str)
    requires
        d < 16,
    ensures
        r@ == seq![digit_char(d as int)],
{
    proof {
        reveal_strlit("0");
        reveal_strlit("1");
        reveal_strlit("2");
        reveal_strlit("3");
        reveal_strlit("4");
        reveal_strlit("5");
        reveal_strlit("6");
        reveal_strlit("7");
        reveal_strlit("8");
        reveal_strlit("9");
        reveal_strlit("a");
        reveal_strlit("b");
        reveal_strlit("c");
        reveal_strlit("d");
        reveal_strlit("e");
        reveal_strlit("f");
    }
    if d == 0 {
        "0"
    } else if d == 1 {
        "1"
    } else if d == 2 {
        "2"
    } else if d == 3 {
        "3"
    } else if d == 4 {
        "4"
    } else if d == 5 {
        "5"
    } else if d == 6 {
        "6"
    } else if d == 7 {
        "7"
    } else if d == 8 {
        "8"
    } else if d == 9 {
        "9"
    } else if d == 10 {
        "a"
    } else if d == 11 {
        "b"
    } else if d == 12 {
        "c"
    } else if d == 13 {
        "d"
    } else if d == 14 {
        "e"
    } else {
        "f"
    }
}

/// Renders `n` in the given base, as the standard digit formatting
/// does: most significant digit first, no leading zeros.
pub fn to_radix_string(n: u64, base: u64) -> (r: String)
    requires
        2 <= base <= 16,
    ensures
        r@ == radix_digits(n as nat, base as nat),
    decreases n,
{
    if n < base {
        digit_str(n).to_owned()
    } else {
        proof {
            assert(n / base < n) by (nonlinear_arith)
                requires
                    2 <= base,
                    base <= n,
            ;
        }
        let mut s = to_radix_string(n / base, base);
        s.append(digit_str(n % base));
        s
    }
}

/// Relies on std::time::SystemTime::now (with duration_since,
/// as_secs and subsec_nanos converting the result): the wall clock as
/// whole seconds since the Unix epoch plus the sub-second nanoseconds,
/// which are always below one billion; a clock before the epoch
/// degrades to zero.
#[verifier::external_body]
fn now_unix() -> (r: (u64, u32))
    ensures
        r.1 < 1_000_000_000,
{
    let d = std::time::SystemTime::now().duration_since(std::time::UNIX_EPOCH).unwrap_or_default();
    (d.as_secs(), d.subsec_nanos())
}

/// A fresh opaque bookmark id: the wall clock's seconds and
/// nanoseconds, each rendered in hexadecimal and concatenated.
pub fn uuid_simple() -> (r: String)
    ensures
        exists|s: u64, n: u32|
            n < 1_000_000_000 && r@ == radix_digits(s as nat, 16) + radix_digits(n as nat, 16),
{
    let (secs, nanos) = now_unix();
    let mut id = to_radix_string(secs, 16);
    let tail = to_radix_string(nanos as u64, 16);
    id.append(tail.as_str());
    proof {
        assert(id@ == radix_digits(secs as nat, 16) + radix_digits(nanos as nat, 16));
    }
    id
}

} // verus!
