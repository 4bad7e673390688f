//! Text rendered by the converter: human-readable byte counts, the source
//! extension filter, and output file names.
//!
//! Byte counts are scaled to the largest binary unit they reach and printed
//! with two decimals, rounding half away from zero; counts below one
//! kibibyte are printed as plain bytes.

use vstd::prelude::*;
use vstd::arithmetic::div_mod::{lemma_div_is_ordered, lemma_div_is_ordered_by_denominator};
use vstd::string::StringExecFns;

verus! {

/// One kibibyte.
pub const KIB: u64 = 1024;

/// One mebibyte.
pub const MIB: u64 = 1024 * 1024;

/// One gibibyte.
pub const GIB: u64 = 1024 * 1024 * 1024;

/// The character of one decimal digit.
pub open spec fn digit_char(d: int) -> char {
    if d == 0 {
        '0'
    } else if d == 1 {
        '1'
    } else if d == 2 {
        '2'
    } else if d == 3 {
        '3'
    } else if d == 4 {
        '4'
    } else if d == 5 {
        '5'
    } else if d == 6 {
        '6'
    } else if d == 7 {
        '7'
    } else if d == 8 {
        '8'
    } else {
        '9'
    }
}

/// The decimal digits of `n`, most significant first.
pub open spec fn dec_chars(n: nat) -> Seq<char>
    decreases n,
{
    if n < 10 {
        seq![digit_char(n as int)]
    } else {
        dec_chars(n / 10).push(digit_char((n % 10) as int))
    }
}

/// A byte count scaled by `unit`, in hundredths, rounding half away from
/// zero.
pub open spec fn scaled_hundredths(size: nat, unit: nat) -> nat
    recommends
        unit > 0,
{
    (size * 100 + unit / 2) / unit
}

/// `<whole>.<two digits>` of a value in hundredths.
pub open spec fn hundredths_chars(h: nat) -> Seq<char> {
    dec_chars(h / 100) + seq![
        '.',
        digit_char(((h / 10) % 10) as int),
        digit_char((h % 10) as int),
    ]
}

/// The rendering of a byte count.
pub open spec fn file_size_chars(size: nat) -> Seq<char> {
    if size >= GIB {
        hundredths_chars(scaled_hundredths(size, GIB as nat)) + " GB"@
    } else if size >= MIB {
        hundredths_chars(scaled_hundredths(size, MIB as nat)) + " MB"@
    } else if size >= KIB {
        hundredths_chars(scaled_hundredths(size, KIB as nat)) + " KB"@
    } else {
        dec_chars(size) + " B"@
    }
}

/// The one-character string of a decimal digit.
fn digit_str(d: u64) -> (r: &'static str)
    requires
        d < 10,
    ensures
        r@ == seq![digit_char(d as int)],
{
    proof {
        reveal_strlit("0");
        reveal_strlit("1");
        reveal_strlit("2");
        reveal_strlit("3");
        reveal_strlit("4");
        reveal_strlit("5");
        reveal_strlit("6");
        reveal_strlit("7");
        reveal_strlit("8");
        reveal_strlit("9");
    }
    let r = match d {
        0 => "0",
        1 => "1",
        2 => "2",
        3 => "3",
        4 => "4",
        5 => "5",
        6 => "6",
        7 => "7",
        8 => "8",
        _ => "9",
    };
    proof {
        assert(r@ =~= seq![digit_char(d as int)]);
    }
    r
}

/// Render an unsigned value in decimal.
pub fn u64_to_dec_string(n: u64) -> (r: String)
    ensures
        r@ == dec_chars(n as nat),
    decreases n,
{
    if n < 10 {
        String::from_str(digit_str(n))
    } else {
        let mut s = u64_to_dec_string(n / 10);
        s.append(digit_str(n % 10));
        proof {
            assert(s@ =~= dec_chars(n as nat));
        }
        s
    }
}

/// Render `size / unit` with two decimals and the given unit suffix.
fn format_scaled(size: u64, unit: u64, suffix: &str) -> (r: String)
    requires
        unit >= 1024,
    ensures
        r@ == hundredths_chars(scaled_hundredths(size as nat, unit as nat)) + suffix@,
{
    let wide: u128 = size as u128 * 100 + (unit / 2) as u128;
    let h128: u128 = wide / (unit as u128);
    proof {
        lemma_div_is_ordered_by_denominator(wide as int, 1024, unit as int);
        lemma_div_is_ordered(wide as int, 0xffff_ffff_ffff_ffffint * 101, 1024);
        assert((0xffff_ffff_ffff_ffffint * 101) / 1024 <= 0xffff_ffff_ffff_ffffint);
    }
    let h: u64 = h128 as u64;
    let whole = h / 100;
    let tens = (h / 10) % 10;
    let ones = h % 10;
    let mut s = u64_to_dec_string(whole);
    s.append(".");
    s.append(digit_str(tens));
    s.append(digit_str(ones));
    s.append(suffix);
    proof {
        reveal_strlit(".");
        assert(h as nat == scaled_hundredths(size as nat, unit as nat));
        assert(s@ =~= hundredths_chars(scaled_hundredths(size as nat, unit as nat)) + suffix@);
    }
    s
}

/// Render a byte count for the console: scaled to the largest binary unit
/// it reaches, with two decimals, or as plain bytes below one kibibyte.
pub fn format_file_size(size: u64) -> (r: String)
    ensures
        r@ == file_size_chars(size as nat),
{
    if size >= GIB {
        format_scaled(size, GIB, " GB")
    } else if size >= MIB {
        format_scaled(size, MIB, " MB")
    } else if size >= KIB {
        format_scaled(size, KIB, " KB")
    } else {
        let mut s = u64_to_dec_string(size);
        s.append(" B");
        s
    }
}

/// Whether a file extension names the source format: `glb` compared without
/// regard to ASCII case.
pub open spec fn is_glb_extension_spec(s: Seq<char>) -> bool {
    &&& s.len() == 3
    &&& (s[0] == 'g' || s[0] == 'G')
    &&& (s[1] == 'l' || s[1] == 'L')
    &&& (s[2] == 'b' || s[2] == 'B')
}

/// Decide whether a file extension names the source format.
pub fn is_glb_extension(ext: &str) -> (r: bool)
    ensures
        r == is_glb_extension_spec(ext@),
{
    if ext.unicode_len() != 3 {
        return false;
    }
    let c0 = ext.get_char(0);
    let c1 = ext.get_char(1);
    let c2 = ext.get_char(2);
    (c0 == 'g' || c0 == 'G') && (c1 == 'l' || c1 == 'L') && (c2 == 'b' || c2 == 'B')
}

/// The output file name for an input file stem: the stem with the
/// destination extension.
pub fn derive_output_file_name(stem: &str) -> (r: String)
    ensures
        r@ == stem@ + ".fbx"@,
{
    let mut s = String::from_str(stem);
    s.append(".fbx");
    s
}

} // verus!
