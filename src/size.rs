use vstd::prelude::*;
use crate::decimal::{decimal_of, digit_char, push_decimal, signed_decimal_of, format_decimal};

verus! {

/// Number of bytes in one unit of index `k`: 1024 to the power `k`.
pub open spec fn unit_bytes(k: nat) -> nat
    decreases k,
{
    if k == 0 { 1 } else { 1024 * unit_bytes((k - 1) as nat) }
}

/// The largest unit index in use ("GB"); an `i32` never reaches a terabyte.
pub const MAX_UNIT: u64 = 3;

/// Index of the unit a size is shown in: the largest `k <= MAX_UNIT`
/// with `1024^k <= size`, and bytes for anything below 1024.
pub open spec fn unit_index(size: int) -> nat {
    if size < 1024 { 0 }
    else if size < 1024 * 1024 { 1 }
    else if size < 1024 * 1024 * 1024 { 2 }
    else { 3 }
}

/// Name of the unit of index `k`.
pub open spec fn unit_name(k: nat) -> Seq<char> {
    if k == 0 { "Bytes"@ } else if k == 1 { "KB"@ } else if k == 2 { "MB"@ } else { "GB"@ }
}

/// The size in tenths of its unit, rounded half up.
pub open spec fn tenths_of(size: nat, k: nat) -> nat {
    (size * 10 + unit_bytes(k) / 2) / unit_bytes(k)
}

/// A count of tenths written with one decimal place, the place left out when zero.
pub open spec fn one_decimal(tenths: nat) -> Seq<char> {
    if tenths % 10 == 0 {
        decimal_of(tenths / 10)
    } else {
        decimal_of(tenths / 10) + seq!['.', digit_char(tenths % 10)]
    }
}

/// The human-readable label of a byte count: below 1024 the count itself in
/// bytes, otherwise the size in 1024-based units with one decimal place.
pub open spec fn size_label(size: int) -> Seq<char> {
    let k = unit_index(size);
    if k == 0 {
        signed_decimal_of(size) + " "@ + unit_name(0)
    } else {
        one_decimal(tenths_of(size as nat, k)) + " "@ + unit_name(k)
    }
}

/// The unit never goes down as the size grows.
pub proof fn lemma_unit_monotonic(a: int, b: int)
    requires
        a <= b,
    ensures
        unit_index(a) <= unit_index(b),
{
}

fn unit_str(k: u64) -> (r: &'static str)
    requires
        k <= MAX_UNIT,
    ensures
        r@ == unit_name(k as nat),
{
    proof {
        reveal_strlit("Bytes");
        reveal_strlit("KB");
        reveal_strlit("MB");
        reveal_strlit("GB");
    }
    if k == 0 { "Bytes" } else if k == 1 { "KB" } else if k == 2 { "MB" } else { "GB" }
}

/// Human-readable size of `size` bytes in 1024-based units with one decimal
/// place: `display_size(0) == "0 Bytes"`, `display_size(1536) == "1.5 KB"`.
pub fn display_size(size: i32) -> (r: String)
    ensures
        r@ == size_label(size as int),
{
    proof {
        reveal_strlit(" ");
        reveal_strlit(".");
        reveal_strlit("");
    }
    if size < 1024 {
        let mut s = format_decimal(size as i64);
        s.append(" ");
        s.append(unit_str(0));
        return s;
    }
    let n: u64 = size as u64;
    let k: u64 = if n < 1024 * 1024 { 1 } else if n < 1024 * 1024 * 1024 { 2 } else { 3 };
    let unit: u64 = if k == 1 { 1024 } else if k == 2 { 1024 * 1024 } else { 1024 * 1024 * 1024 };
    proof {
        reveal_with_fuel(unit_bytes, 4);
        assert(unit == unit_bytes(k as nat));
    }
    let tenths: u64 = (n * 10 + unit / 2) / unit;
    let mut s = String::from_str("");
    push_decimal(&mut s, tenths / 10);
    if tenths % 10 != 0 {
        s.append(".");
        assert(tenths % 10 < 10);
        push_decimal(&mut s, tenths % 10);
        proof {
            reveal_with_fuel(decimal_of, 1);
        }
    }
    s.append(" ");
    s.append(unit_str(k));
    assert(s@ =~= size_label(size as int));
    s
}

} // verus!
