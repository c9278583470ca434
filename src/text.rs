use vstd::prelude::*;
use vstd::string::*;

verus! {

/// Concatenation regrouped to the left, the order in which text is appended.
pub broadcast proof fn lemma_cat_assoc(a: Seq<char>, b: Seq<char>, c: Seq<char>)
    ensures
        #[trigger] (a + (b + c)) == (a + b) + c,
{
    assert(a + (b + c) =~= (a + b) + c);
}

/// The text of one decimal digit.
pub open spec fn digit_text(d: nat) -> Seq<char> {
    if d == 0 { "0"@ } else if d == 1 { "1"@ } else if d == 2 { "2"@ } else if d == 3 { "3"@ }
    else if d == 4 { "4"@ } else if d == 5 { "5"@ } else if d == 6 { "6"@ } else if d == 7 { "7"@ }
    else if d == 8 { "8"@ } else { "9"@ }
}

/// The decimal text of a natural number, without leading zeros.
pub open spec fn dec(n: nat) -> Seq<char>
    decreases n,
{
    if n < 10 {
        digit_text(n)
    } else {
        dec(n / 10) + digit_text(n % 10)
    }
}

/// The decimal text of an integer, with a leading `-` when it is negative.
pub open spec fn int_text(i: int) -> Seq<char> {
    if i < 0 {
        "-"@ + dec((-i) as nat)
    } else {
        dec(i as nat)
    }
}

fn push_digit(d: u64, out: &mut String)
    requires
        d < 10,
    ensures
        final(out)@ == old(out)@ + digit_text(d as nat),
{
    let s: &str = if d == 0 { "0" } else if d == 1 { "1" } else if d == 2 { "2" } else if d == 3 {
        "3"
    } else if d == 4 { "4" } else if d == 5 { "5" } else if d == 6 { "6" } else if d == 7 {
        "7"
    } else if d == 8 { "8" } else { "9" };
    out.append(s);
}

/// Appends the decimal text of `n`.
pub fn push_dec(n: u64, out: &mut String)
    ensures
        final(out)@ == old(out)@ + dec(n as nat),
    decreases n,
{
    if n < 10 {
        push_digit(n, out);
    } else {
        push_dec(n / 10, out);
        push_digit(n % 10, out);
        proof {
            broadcast use lemma_cat_assoc;
        }
    }
}

/// Appends the decimal text of `v`, with a leading `-` when it is negative.
pub fn push_int(v: i64, out: &mut String)
    ensures
        final(out)@ == old(out)@ + int_text(v as int),
{
    if v < 0 {
        out.append("-");
        let mag: u64 = if v == i64::MIN {
            9223372036854775808u64
        } else {
            (-v) as u64
        };
        push_dec(mag, out);
        proof {
            broadcast use lemma_cat_assoc;
        }
    } else {
        push_dec(v as u64, out);
    }
}

/// `prefix_0, prefix_1, ..., prefix_{len-1}`, empty when `len` is zero.
pub open spec fn in_order_text(prefix: Seq<char>, len: nat) -> Seq<char>
    decreases len,
{
    if len == 0 {
        Seq::empty()
    } else if len == 1 {
        prefix + "_"@ + dec(0)
    } else {
        in_order_text(prefix, (len - 1) as nat) + ", "@ + prefix + "_"@ + dec((len - 1) as nat)
    }
}

/// Appends the names `prefix_0` to `prefix_{len-1}`, separated by commas.
pub fn write_in_order(prefix: &str, len: usize, out: &mut String)
    ensures
        final(out)@ == old(out)@ + in_order_text(prefix@, len as nat),
{
    if len == 0 {
        return;
    }
    out.append(prefix);
    out.append("_");
    push_dec(0, out);
    let mut i: usize = 1;
    while i < len
        invariant
            1 <= i <= len,
            out@ == old(out)@ + in_order_text(prefix@, i as nat),
        decreases len - i,
    {
        out.append(", ");
        out.append(prefix);
        out.append("_");
        push_dec(i as u64, out);
        proof {
            broadcast use lemma_cat_assoc;
        }
        i = i + 1;
    }
}

/// The text of a single-precision literal given by its bits, where `sci` is the
/// scientific rendering of the value when it is finite.
pub open spec fn f32_text(bits: u32, sci: Seq<char>) -> Seq<char> {
    let sign = if bits >> 31u32 == 1 { "-"@ } else { ""@ };
    let exp = (bits >> 23u32) & 0xffu32;
    let man = bits & 0x7fffffu32;
    if exp == 0xff && man == 0 {
        sign + "math.huge "@
    } else if exp == 0xff {
        sign + "0/0 "@
    } else {
        sci + " "@
    }
}

/// The text of a double-precision literal given by its bits, where `sci` is the
/// scientific rendering of the value when it is finite.
pub open spec fn f64_text(bits: u64, sci: Seq<char>) -> Seq<char> {
    let sign = if bits >> 63u64 == 1 { "-"@ } else { ""@ };
    let exp = (bits >> 52u64) & 0x7ffu64;
    let man = bits & 0xfffffffffffffu64;
    if exp == 0x7ff && man == 0 {
        sign + "math.huge "@
    } else if exp == 0x7ff {
        sign + "0/0 "@
    } else {
        sci + " "@
    }
}

/// Appends a single-precision literal: signed `math.huge` for an infinity,
/// signed `0/0` for a NaN, the scientific rendering otherwise.
pub fn write_f32(bits: u32, sci: &str, out: &mut String)
    ensures
        final(out)@ == old(out)@ + f32_text(bits, sci@),
{
    let sign: &str = if bits >> 31u32 == 1 { "-" } else { "" };
    let exp = (bits >> 23u32) & 0xffu32;
    let man = bits & 0x7fffffu32;
    if exp == 0xff && man == 0 {
        out.append(sign);
        out.append("math.huge ");
    } else if exp == 0xff {
        out.append(sign);
        out.append("0/0 ");
    } else {
        out.append(sci);
        out.append(" ");
    }
    proof {
        broadcast use lemma_cat_assoc;
    }
}

/// Appends a double-precision literal: signed `math.huge` for an infinity,
/// signed `0/0` for a NaN, the scientific rendering otherwise.
pub fn write_f64(bits: u64, sci: &str, out: &mut String)
    ensures
        final(out)@ == old(out)@ + f64_text(bits, sci@),
{
    let sign: &str = if bits >> 63u64 == 1 { "-" } else { "" };
    let exp = (bits >> 52u64) & 0x7ffu64;
    let man = bits & 0xfffffffffffffu64;
    if exp == 0x7ff && man == 0 {
        out.append(sign);
        out.append("math.huge ");
    } else if exp == 0x7ff {
        out.append(sign);
        out.append("0/0 ");
    } else {
        out.append(sci);
        out.append(" ");
    }
    proof {
        broadcast use lemma_cat_assoc;
    }
}

/// `prefix_start, ..., prefix_{end-1}`, empty when the range is.
pub open spec fn names_text(prefix: Seq<char>, start: nat, end: nat) -> Seq<char>
    decreases end - start,
{
    if end <= start {
        Seq::empty()
    } else if end == start + 1 {
        prefix + "_"@ + dec(start)
    } else {
        names_text(prefix, start, (end - 1) as nat) + ", "@ + prefix + "_"@ + dec((end - 1) as nat)
    }
}

/// Appends the names `prefix_start` to `prefix_{end-1}`, separated by commas.
pub fn write_names(prefix: &str, start: usize, end: usize, out: &mut String)
    ensures
        final(out)@ == old(out)@ + names_text(prefix@, start as nat, end as nat),
{
    if end <= start {
        return;
    }
    out.append(prefix);
    out.append("_");
    push_dec(start as u64, out);
    let mut i: usize = start + 1;
    while i < end
        invariant
            start < i <= end,
            out@ == old(out)@ + names_text(prefix@, start as nat, i as nat),
        decreases end - i,
    {
        out.append(", ");
        out.append(prefix);
        out.append("_");
        push_dec(i as u64, out);
        proof {
            broadcast use lemma_cat_assoc;
        }
        i = i + 1;
    }
}

} // verus!
