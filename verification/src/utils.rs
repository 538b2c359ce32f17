//! File sizes for the eye.

use crate::text::{decimal, digit_char, push_char, push_decimal};
use vstd::prelude::*;

verus! {

/// The number of bytes in a KiB.
pub const KILOBYTE: u64 = 1024;

/// The number of bytes in a MiB.
pub const MEGABYTE: u64 = 1_048_576;

/// The number of bytes in a GiB.
pub const GIGABYTE: u64 = 1_073_741_824;

/// The unit a size is shown in: the largest unit that the size exceeds.
pub open spec fn unit_size(len: u64) -> u64 {
    if len > GIGABYTE {
        GIGABYTE
    } else if len > MEGABYTE {
        MEGABYTE
    } else if len > KILOBYTE {
        KILOBYTE
    } else {
        1
    }
}

/// The name of a unit.
pub open spec fn unit_name(unit: u64) -> Seq<char> {
    if unit == GIGABYTE {
        "GiB"@
    } else if unit == MEGABYTE {
        "MiB"@
    } else if unit == KILOBYTE {
        "KiB"@
    } else {
        "bytes"@
    }
}

/// `len / unit` in hundredths, rounded to the nearest; a value halfway
/// between two hundredths goes to the even one.
pub open spec fn hundredths(len: nat, unit: nat) -> nat {
    let scaled = len * 100;
    let quotient = scaled / unit;
    let rest = scaled % unit;
    if 2 * rest > unit || (2 * rest == unit && quotient % 2 == 1) {
        quotient + 1
    } else {
        quotient
    }
}

/// A size as shown to the user: the number of units with two decimal places,
/// then the unit's name.
pub open spec fn pretty_size(len: u64) -> Seq<char> {
    let unit = unit_size(len);
    let h = hundredths(len as nat, unit as nat);
    decimal(h / 100) + seq!['.', digit_char(h % 100 / 10), digit_char(h % 10)] + unit_name(unit)
}

/// Shows a size in bytes, KiB, MiB or GiB, with two decimal places.
pub fn pretty_bytes_size(len: u64) -> (r: String)
    ensures
        r@ == pretty_size(len),
{
    let unit: u64 = if len > GIGABYTE {
        GIGABYTE
    } else if len > MEGABYTE {
        MEGABYTE
    } else if len > KILOBYTE {
        KILOBYTE
    } else {
        1
    };
    let scaled: u128 = len as u128 * 100;
    let quotient: u128 = scaled / unit as u128;
    let rest: u128 = scaled % unit as u128;
    let h: u128 = if 2 * rest > unit as u128 || (2 * rest == unit as u128 && quotient % 2 == 1) {
        quotient + 1
    } else {
        quotient
    };
    assert(h == hundredths(len as nat, unit as nat));
    let whole: u64 = (h / 100) as u64;
    let tenths: u8 = (h % 100 / 10) as u8;
    let last: u8 = (h % 10) as u8;
    let mut out = String::new();
    push_decimal(&mut out, whole);
    push_char(&mut out, '.');
    push_char(&mut out, (48u8 + tenths) as char);
    push_char(&mut out, (48u8 + last) as char);
    let name = if unit == GIGABYTE {
        "GiB"
    } else if unit == MEGABYTE {
        "MiB"
    } else if unit == KILOBYTE {
        "KiB"
    } else {
        "bytes"
    };
    out.append(name);
    assert(out@ =~= pretty_size(len));
    out
}

} // verus!
