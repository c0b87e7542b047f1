//! Fixed-point decimal rendering of a memory snapshot.
//!
//! The overlay label shows `"Memory: {load}% ({used}G / {total}G)"`, with the
//! byte counts converted to gibibytes and rendered with exactly two decimal
//! places.  Floating point is avoided: a byte count is first turned into a
//! whole number of hundredths of a gibibyte, rounding half up, and that
//! number is rendered as digits.  Every function here carries an exact
//! character-level specification, so the label text is pinned down for every
//! snapshot — in particular a zero total renders as `"0.00G"` with no
//! division hazard.

use vstd::arithmetic::div_mod::lemma_multiply_divide_lt;
use vstd::prelude::*;
use vstd::string::StringExecFns;

use crate::snapshot::MemorySnapshot;

verus! {

/// Bytes per gibibyte, `2^30`.
pub const BYTES_PER_GIB: u64 = 1073741824;

/// Half a gibibyte in bytes, `2^29`: the rounding offset.
pub const HALF_GIB: u64 = 536870912;

/// The decimal digit character for `d` (meaningful for `d < 10`).
pub open spec fn digit_char(d: nat) -> char {
    if d == 0 {
        '0'
    } else if d == 1 {
        '1'
    } else if d == 2 {
        '2'
    } else if d == 3 {
        '3'
    } else if d == 4 {
        '4'
    } else if d == 5 {
        '5'
    } else if d == 6 {
        '6'
    } else if d == 7 {
        '7'
    } else if d == 8 {
        '8'
    } else {
        '9'
    }
}

/// The ordinary decimal rendering of `n`: most significant digit first, no
/// leading zeroes (except for `n == 0`, rendered as `"0"`).
pub open spec fn spec_decimal(n: nat) -> Seq<char>
    decreases n,
{
    if n < 10 {
        seq![digit_char(n)]
    } else {
        spec_decimal(n / 10).push(digit_char(n % 10))
    }
}

/// `bytes` expressed as hundredths of a gibibyte, rounded half up:
/// `(bytes * 100 + 2^29) / 2^30`.
pub open spec fn spec_gib_hundredths(bytes: nat) -> nat {
    ((bytes * 100 + HALF_GIB) / (BYTES_PER_GIB as int)) as nat
}

/// The two-decimal gibibyte rendering of a byte count: whole part in
/// ordinary decimal, a dot, then exactly two fraction digits.
pub open spec fn spec_gib_text(bytes: nat) -> Seq<char> {
    let h = spec_gib_hundredths(bytes);
    spec_decimal(h / 100) + seq!['.', digit_char((h % 100) / 10), digit_char(h % 10)]
}

/// The full label text for a snapshot:
/// `"Memory: {load}% ({used:.2}G / {total:.2}G)"`.
pub open spec fn spec_memory_text(s: MemorySnapshot) -> Seq<char> {
    "Memory: "@ + spec_decimal(s.load_percent as nat) + "% ("@ + spec_gib_text(
        s.used_bytes as nat,
    ) + "G / "@ + spec_gib_text(s.total_bytes as nat) + "G)"@
}

/// Appends the single decimal digit `d` to `out`.
fn push_digit(out: &mut String, d: u64)
    requires
        d < 10,
    ensures
        final (out)@ == old(out)@.push(digit_char(d as nat)),
{
    if d == 0 {
        out.append("0");
        proof {
            reveal_strlit("0");
            assert(out@ =~= old(out)@.push('0'));
        }
    } else if d == 1 {
        out.append("1");
        proof {
            reveal_strlit("1");
            assert(out@ =~= old(out)@.push('1'));
        }
    } else if d == 2 {
        out.append("2");
        proof {
            reveal_strlit("2");
            assert(out@ =~= old(out)@.push('2'));
        }
    } else if d == 3 {
        out.append("3");
        proof {
            reveal_strlit("3");
            assert(out@ =~= old(out)@.push('3'));
        }
    } else if d == 4 {
        out.append("4");
        proof {
            reveal_strlit("4");
            assert(out@ =~= old(out)@.push('4'));
        }
    } else if d == 5 {
        out.append("5");
        proof {
            reveal_strlit("5");
            assert(out@ =~= old(out)@.push('5'));
        }
    } else if d == 6 {
        out.append("6");
        proof {
            reveal_strlit("6");
            assert(out@ =~= old(out)@.push('6'));
        }
    } else if d == 7 {
        out.append("7");
        proof {
            reveal_strlit("7");
            assert(out@ =~= old(out)@.push('7'));
        }
    } else if d == 8 {
        out.append("8");
        proof {
            reveal_strlit("8");
            assert(out@ =~= old(out)@.push('8'));
        }
    } else {
        out.append("9");
        proof {
            reveal_strlit("9");
            assert(out@ =~= old(out)@.push('9'));
        }
    }
}

/// Appends the decimal rendering of `n` to `out`.
fn push_decimal(out: &mut String, n: u64)
    ensures
        final (out)@ == old(out)@ + spec_decimal(n as nat),
    decreases n,
{
    if n >= 10 {
        push_decimal(out, n / 10);
        push_digit(out, n % 10);
        proof {
            assert(out@ =~= old(out)@ + spec_decimal(n as nat));
        }
    } else {
        push_digit(out, n);
        proof {
            assert(out@ =~= old(out)@ + spec_decimal(n as nat));
        }
    }
}

/// Converts a byte count to hundredths of a gibibyte, rounding half up.
pub fn gib_hundredths(bytes: u64) -> (h: u64)
    ensures
        h == spec_gib_hundredths(bytes as nat),
{
    let prod: u128 = (bytes as u128) * 100 + (HALF_GIB as u128);
    let h128: u128 = prod / (BYTES_PER_GIB as u128);
    proof {
        // prod < 2^71 = 2^30 * 2^41, so the quotient fits far within u64.
        lemma_multiply_divide_lt(prod as int, BYTES_PER_GIB as int, 0x20000000000);
    }
    h128 as u64
}

/// Appends the two-decimal gibibyte rendering of `bytes` to `out`.
fn push_gib_text(out: &mut String, bytes: u64)
    ensures
        final (out)@ == old(out)@ + spec_gib_text(bytes as nat),
{
    let h = gib_hundredths(bytes);
    push_decimal(out, h / 100);
    out.append(".");
    push_digit(out, (h % 100) / 10);
    push_digit(out, h % 10);
    proof {
        reveal_strlit(".");
        assert(out@ =~= old(out)@ + spec_gib_text(bytes as nat));
    }
}

/// Renders the overlay label text for a snapshot:
/// `"Memory: {load}% ({used:.2}G / {total:.2}G)"`, byte counts in gibibytes
/// rounded half up to two decimals.
pub fn format_memory_text(s: &MemorySnapshot) -> (r: String)
    ensures
        r@ == spec_memory_text(*s),
{
    let mut out = String::new();
    out.append("Memory: ");
    push_decimal(&mut out, s.load_percent as u64);
    out.append("% (");
    push_gib_text(&mut out, s.used_bytes);
    out.append("G / ");
    push_gib_text(&mut out, s.total_bytes);
    out.append("G)");
    proof {
        reveal_strlit("Memory: ");
        reveal_strlit("% (");
        reveal_strlit("G / ");
        reveal_strlit("G)");
        assert(out@ =~= spec_memory_text(*s));
    }
    out
}

} // verus!
