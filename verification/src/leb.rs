//! LEB128 integers: the unsigned form with a minimum width, and the signed
//! form.

use vstd::prelude::*;

verus! {

/// The unsigned LEB128 encoding of `n` in at least `min` bytes.
///
/// Seven bits go into each byte, least significant first, and every byte
/// but the last has its high bit set. Where the shortest encoding has fewer
/// than `min` bytes, its last byte gets the high bit too and zero groups are
/// appended until there are `min` bytes.
pub open spec fn uleb(n: nat, min: nat) -> Seq<u8>
    decreases n + min,
{
    if n < 128 && min <= 1 {
        seq![n as u8]
    } else {
        seq![(n % 128 + 128) as u8] + uleb(n / 128, if min > 0 { (min - 1) as nat } else { 0 })
    }
}

/// The number of bytes in the shortest unsigned LEB128 encoding of `n`.
pub open spec fn uleb_width(n: nat) -> nat
    decreases n,
{
    if n < 128 {
        1
    } else {
        1 + uleb_width(n / 128)
    }
}

/// The number that the unsigned LEB128 integer at the start of `b` stands
/// for.
pub open spec fn uleb_value(b: Seq<u8>) -> nat
    decreases b.len(),
{
    if b.len() == 0 {
        0
    } else if b[0] < 128 {
        b[0] as nat
    } else {
        (b[0] - 128) as nat + 128 * uleb_value(b.drop_first())
    }
}

/// The number of bytes that the unsigned LEB128 integer at the start of `b`
/// takes.
pub open spec fn uleb_extent(b: Seq<u8>) -> nat
    decreases b.len(),
{
    if b.len() == 0 {
        0
    } else if b[0] < 128 {
        1
    } else {
        1 + uleb_extent(b.drop_first())
    }
}

/// The signed LEB128 encoding of `x`, in the fewest bytes.
///
/// The last byte is the first one after which the remaining value is all
/// sign: zero with bit six clear, or minus one with bit six set.
pub open spec fn sleb(x: int) -> Seq<u8>
    decreases (if x >= 0 { x } else { -x }),
{
    let low = x % 128;
    let rest = x / 128;
    if (rest == 0 && low < 64) || (rest == -1 && low >= 64) {
        seq![low as u8]
    } else {
        seq![(low + 128) as u8] + sleb(rest)
    }
}

/// An unsigned LEB128 integer has as many bytes as the wider of its
/// shortest form and the minimum width, and never none.
pub proof fn uleb_len(n: nat, min: nat)
    ensures
        uleb(n, min).len() == if uleb_width(n) >= min { uleb_width(n) } else { min },
        uleb(n, min).len() >= 1,
    decreases n + min,
{
    if n < 128 && min <= 1 {
    } else {
        let m: nat = if min > 0 { (min - 1) as nat } else { 0 };
        uleb_len(n / 128, m);
        if n < 128 {
            assert(uleb_width(n / 128) == 1);
        }
    }
}

/// Reading back an unsigned LEB128 integer gives the number that was
/// written and stops at its last byte, whatever follows it and whatever
/// width was asked for.
pub proof fn uleb_round_trip(n: nat, min: nat, rest: Seq<u8>)
    ensures
        uleb_value(uleb(n, min) + rest) == n,
        uleb_extent(uleb(n, min) + rest) == uleb(n, min).len(),
    decreases n + min,
{
    let b = uleb(n, min) + rest;
    if n < 128 && min <= 1 {
        assert(b[0] == n as u8);
    } else {
        let m: nat = if min > 0 { (min - 1) as nat } else { 0 };
        uleb_round_trip(n / 128, m, rest);
        assert(b[0] == (n % 128 + 128) as u8);
        assert(b.drop_first() =~= uleb(n / 128, m) + rest);
    }
}

/// Appends the unsigned LEB128 encoding of `n` in at least `min` bytes.
pub fn write_uleb(out: &mut Vec<u8>, n: u128, min: u8)
    ensures
        final(out)@ == old(out)@ + uleb(n as nat, min as nat),
{
    let mut v: u128 = n;
    let mut m: u8 = min;
    while !(v < 128 && m <= 1)
        invariant
            old(out)@ + uleb(n as nat, min as nat) == out@ + uleb(v as nat, m as nat),
        decreases v + m,
    {
        let ghost before = out@;
        let ghost next_min: nat = if m > 0 { (m - 1) as nat } else { 0 };
        let byte: u8 = (v % 128 + 128) as u8;
        out.push(byte);
        assert(before + uleb(v as nat, m as nat) =~= out@ + uleb((v / 128) as nat, next_min));
        v = v / 128;
        if m > 0 {
            m = m - 1;
        }
    }
    let ghost before = out@;
    out.push(v as u8);
    assert(before + uleb(v as nat, m as nat) =~= out@);
}

/// Appends the signed LEB128 encoding of `x`.
pub fn write_sleb(out: &mut Vec<u8>, x: i64)
    ensures
        final(out)@ == old(out)@ + sleb(x as int),
{
    let neg: bool = x < 0;
    // For a negative number the loop works on its complement, which is not
    // negative: the groups of seven bits are then the complements too.
    let mut y: u64 = if neg { (-(x + 1)) as u64 } else { x as u64 };
    let ghost mut cur: int = x as int;
    loop
        invariant
            cur == (if neg { -(y as int) - 1 } else { y as int }),
            old(out)@ + sleb(x as int) == out@ + sleb(cur),
        decreases y,
    {
        let group: u64 = y % 128;
        let low: u64 = if neg { 127 - group } else { group };
        let next: u64 = y / 128;
        let ghost rest: int = if neg { -(next as int) - 1 } else { next as int };
        assert(cur % 128 == low as int && cur / 128 == rest) by {
            assert(cur == 128 * rest + low);
        }
        let last: bool = next == 0 && (if neg { low >= 64 } else { low < 64 });
        let ghost before = out@;
        if last {
            out.push(low as u8);
            assert(before + sleb(cur) =~= out@);
            return ;
        }
        out.push((low + 128) as u8);
        assert(before + sleb(cur) =~= out@ + sleb(rest));
        y = next;
        proof {
            cur = rest;
        }
    }
}

} // verus!
