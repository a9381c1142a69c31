//! Reading decisions from a finite run of bytes.
//!
//! A reader never fails. Where the bytes run out, a draw gives the least
//! value of its range, a flag is `false`, and bytes that are asked for are
//! zero.

use vstd::prelude::*;

verus! {

/// The number of bytes that a draw from a range of `delta + 1` values
/// reads: as many as it takes to tell the values apart, among 0, 1, 2, 4
/// and 8.
pub open spec fn draw_width(delta: nat) -> nat {
    if delta == 0 {
        0
    } else if delta < 0x100 {
        1
    } else if delta < 0x1_0000 {
        2
    } else if delta < 0x1_0000_0000 {
        4
    } else {
        8
    }
}

/// The number that bytes stand for, the first byte being the most
/// significant.
pub open spec fn be_value(b: Seq<u8>) -> nat
    decreases b.len(),
{
    if b.len() == 0 {
        0
    } else {
        be_value(b.drop_last()) * 256 + b.last() as nat
    }
}

/// The number of bytes that a draw between `lo` and `hi` takes from `s`.
pub open spec fn draw_len(s: Seq<u8>, lo: u64, hi: u64) -> nat {
    if hi <= lo {
        0
    } else {
        let k = draw_width((hi - lo) as nat);
        if k <= s.len() {
            k
        } else {
            s.len()
        }
    }
}

/// The value of a draw between `lo` and `hi` from `s`: `lo` plus what the
/// bytes taken stand for, reduced to the size of the range. It is `lo`
/// where the range is empty or a single value, and where `s` is empty.
pub open spec fn draw_value(s: Seq<u8>, lo: u64, hi: u64) -> u64 {
    if hi <= lo {
        lo
    } else {
        (lo + be_value(s.take(draw_len(s, lo, hi) as int)) % ((hi - lo + 1) as nat)) as u64
    }
}

/// What is left of `s` behind a draw between `lo` and `hi`.
pub open spec fn draw_rest(s: Seq<u8>, lo: u64, hi: u64) -> Seq<u8> {
    s.skip(draw_len(s, lo, hi) as int)
}

/// The value of a flag read from `s`: whether the first byte is odd.
pub open spec fn flag_value(s: Seq<u8>) -> bool {
    s.len() > 0 && s[0] % 2 == 1
}

/// What is left of `s` behind a flag.
pub open spec fn flag_rest(s: Seq<u8>) -> Seq<u8> {
    if s.len() > 0 {
        s.skip(1)
    } else {
        s
    }
}

/// The first `n` bytes of `s`, with zeros where `s` is shorter.
pub open spec fn fill_value(s: Seq<u8>, n: nat) -> Seq<u8> {
    Seq::new(
        n,
        |i: int|
            if i < s.len() {
                s[i]
            } else {
                0u8
            },
    )
}

/// What is left of `s` behind `n` bytes.
pub open spec fn fill_rest(s: Seq<u8>, n: nat) -> Seq<u8> {
    if n <= s.len() {
        s.skip(n as int)
    } else {
        Seq::empty()
    }
}

/// Which of three weighted alternatives a draw selects: the alternatives
/// lie side by side on a line, each as long as its weight, and the draw
/// picks a point of the line.
pub open spec fn weighted_value(s: Seq<u8>, a: u32, b: u32, c: u32) -> u8 {
    let point = draw_value(s, 0, (a + b + c - 1) as u64);
    if point < a {
        0
    } else if point < a + b {
        1
    } else {
        2
    }
}

/// What is left of `s` behind a weighted choice.
pub open spec fn weighted_rest(s: Seq<u8>, a: u32, b: u32, c: u32) -> Seq<u8> {
    draw_rest(s, 0, (a + b + c - 1) as u64)
}

/// A power of 256.
pub open spec fn pow256(n: nat) -> nat
    decreases n,
{
    if n == 0 {
        1
    } else {
        256 * pow256((n - 1) as nat)
    }
}

/// What bytes stand for is below the power of 256 of their number.
pub proof fn be_value_bound(b: Seq<u8>)
    ensures
        be_value(b) < pow256(b.len()),
    decreases b.len(),
{
    if b.len() > 0 {
        be_value_bound(b.drop_last());
    }
}

/// A draw stays within its range.
pub proof fn draw_in_range(s: Seq<u8>, lo: u64, hi: u64)
    requires
        lo <= hi,
    ensures
        lo <= draw_value(s, lo, hi) <= hi,
{
    if lo < hi {
        let v = be_value(s.take(draw_len(s, lo, hi) as int));
        let n = (hi - lo + 1) as nat;
        assert(0 <= v % n < n);
    }
}

/// A reader of decisions: the bytes of the entropy, and how many of them
/// have been read.
#[derive(Clone, Copy, Debug)]
pub struct Entropy<'a> {
    pub data: &'a [u8],
    pub pos: usize,
}

impl<'a> View for Entropy<'a> {
    type V = Seq<u8>;

    /// The bytes that have not been read.
    open spec fn view(&self) -> Seq<u8> {
        if self.pos <= self.data@.len() {
            self.data@.skip(self.pos as int)
        } else {
            Seq::empty()
        }
    }
}

impl<'a> Entropy<'a> {
    /// A reader at the start of `data`.
    pub fn new(data: &'a [u8]) -> (u: Entropy<'a>)
        ensures
            u@ == data@,
            u.data == data,
    {
        let u = Entropy { data, pos: 0 };
        assert(u@ =~= data@);
        u
    }

    /// Whether every byte has been read.
    pub fn is_empty(&self) -> (r: bool)
        ensures
            r == (self@.len() == 0),
    {
        self.pos >= self.data.len()
    }

    /// The number of bytes that have not been read.
    pub fn remaining(&self) -> (r: usize)
        ensures
            r == self@.len(),
    {
        if self.pos <= self.data.len() {
            self.data.len() - self.pos
        } else {
            0
        }
    }

    /// Draws a number between `lo` and `hi`, both included.
    pub fn draw(&mut self, lo: u64, hi: u64) -> (r: u64)
        ensures
            r == draw_value(old(self)@, lo, hi),
            final(self)@ == draw_rest(old(self)@, lo, hi),
            final(self).data == old(self).data,
            hi <= lo ==> r == lo,
            lo <= hi ==> lo <= r <= hi,
    {
        let ghost s = self@;
        proof {
            if lo <= hi {
                draw_in_range(s, lo, hi);
            }
        }
        if self.pos > self.data.len() {
            self.pos = self.data.len();
            assert(self@ =~= s);
        }
        if hi <= lo {
            assert(s.skip(0) =~= s);
            return lo;
        }
        let delta: u64 = hi - lo;
        let width: usize = if delta < 0x100 {
            1
        } else if delta < 0x1_0000 {
            2
        } else if delta < 0x1_0000_0000 {
            4
        } else {
            8
        };
        let left: usize = self.remaining();
        let k: usize = if width <= left { width } else { left };
        let start: usize = self.pos;
        let mut v: u64 = 0;
        let mut i: usize = 0;
        assert(s.take(0) =~= Seq::<u8>::empty());
        while i < k
            invariant
                i <= k <= 8,
                k <= s.len(),
                s == old(self)@,
                self.data == old(self).data,
                self.pos == start + i,
                s == self.data@.skip(start as int),
                start + k <= self.data@.len(),
                v == be_value(s.take(i as int)),
            decreases k - i,
        {
            proof {
                be_value_bound(s.take(i as int));
                reveal_with_fuel(pow256, 9);
                assert(s.take(i + 1).drop_last() =~= s.take(i as int));
                assert(s.take(i + 1).last() == self.data@[self.pos as int]);
            }
            v = v * 256 + self.data[self.pos] as u64;
            self.pos = self.pos + 1;
            i = i + 1;
        }
        assert(self@ =~= s.skip(k as int));
        assert(draw_len(s, lo, hi) == k);
        if delta == u64::MAX {
            proof {
                be_value_bound(s.take(k as int));
                reveal_with_fuel(pow256, 9);
                assert(pow256(k as nat) <= pow256(8));
                assert((hi - lo + 1) as nat == 0x1_0000_0000_0000_0000nat);
                vstd::arithmetic::div_mod::lemma_small_mod(v as nat, 0x1_0000_0000_0000_0000nat);
            }
            // Every value of 64 bits is in range: nothing to reduce, and
            // the sum cannot pass `hi`, for `lo` is zero.
            v
        } else {
            let r: u64 = v % (delta + 1);
            assert(r as nat == (v as nat) % ((hi - lo + 1) as nat));
            lo + r
        }
    }

    /// Draws an index below `n`, or zero where `n` is zero.
    pub fn index(&mut self, n: usize) -> (r: usize)
        ensures
            r == index_value(old(self)@, n),
            final(self)@ == index_rest(old(self)@, n),
            final(self).data == old(self).data,
            n > 0 ==> r < n,
    {
        if n == 0 {
            return 0;
        }
        self.draw(0, (n - 1) as u64) as usize
    }

    /// Draws a count between `lo` and `hi`; where `lo` is above `hi`, the
    /// count is `hi`: the ceiling wins.
    pub fn count(&mut self, lo: usize, hi: usize) -> (r: usize)
        ensures
            r == count_value(old(self)@, lo, hi),
            final(self)@ == count_rest(old(self)@, lo, hi),
            final(self).data == old(self).data,
            r <= hi,
            lo <= hi ==> lo <= r,
            lo > hi ==> r == hi,
    {
        let low: usize = if lo <= hi { lo } else { hi };
        self.draw(low as u64, hi as u64) as usize
    }

    /// Reads a flag.
    pub fn flag(&mut self) -> (r: bool)
        ensures
            r == flag_value(old(self)@),
            final(self)@ == flag_rest(old(self)@),
            final(self).data == old(self).data,
    {
        if self.pos < self.data.len() {
            let b: u8 = self.data[self.pos];
            self.pos = self.pos + 1;
            assert(self@ =~= old(self)@.skip(1));
            b % 2 == 1
        } else {
            false
        }
    }

    /// Reads `n` bytes; those behind the end of the entropy are zero.
    pub fn bytes(&mut self, n: usize) -> (r: Vec<u8>)
        ensures
            r@ == fill_value(old(self)@, n as nat),
            final(self)@ == fill_rest(old(self)@, n as nat),
            final(self).data == old(self).data,
    {
        let ghost s = self@;
        let mut r: Vec<u8> = Vec::new();
        let mut i: usize = 0;
        while i < n
            invariant
                i <= n,
                s == old(self)@,
                self.data == old(self).data,
                r@ == fill_value(s, i as nat),
                self@ == fill_rest(s, i as nat),
            decreases n - i,
        {
            let ghost before = self@;
            if self.pos < self.data.len() {
                r.push(self.data[self.pos]);
                self.pos = self.pos + 1;
                assert(self@ =~= before.skip(1));
            } else {
                r.push(0);
            }
            assert(r@ =~= fill_value(s, (i + 1) as nat));
            assert(self@ =~= fill_rest(s, (i + 1) as nat));
            i = i + 1;
        }
        r
    }

    /// Selects one of three alternatives by their weights, which are not
    /// all zero: 0, 1 or 2.
    pub fn weighted(&mut self, a: u32, b: u32, c: u32) -> (r: u8)
        requires
            a + b + c > 0,
        ensures
            r == weighted_value(old(self)@, a, b, c),
            final(self)@ == weighted_rest(old(self)@, a, b, c),
            final(self).data == old(self).data,
            r == 0 ==> a > 0,
            r == 1 ==> b > 0,
            r == 2 ==> c > 0,
            r <= 2,
    {
        let total: u64 = a as u64 + b as u64 + c as u64;
        let point: u64 = self.draw(0, total - 1);
        if point < a as u64 {
            0
        } else if point < a as u64 + b as u64 {
            1
        } else {
            2
        }
    }
}

/// The value of an index drawn below `n`; zero where `n` is zero.
pub open spec fn index_value(s: Seq<u8>, n: usize) -> usize {
    if n == 0 {
        0
    } else {
        draw_value(s, 0, (n - 1) as u64) as usize
    }
}

/// What is left of `s` behind an index below `n`.
pub open spec fn index_rest(s: Seq<u8>, n: usize) -> Seq<u8> {
    if n == 0 {
        s
    } else {
        draw_rest(s, 0, (n - 1) as u64)
    }
}

/// The value of a count drawn between `lo` and `hi`, where the ceiling
/// wins over the floor.
pub open spec fn count_value(s: Seq<u8>, lo: usize, hi: usize) -> usize {
    draw_value(s, (if lo <= hi { lo } else { hi }) as u64, hi as u64) as usize
}

/// What is left of `s` behind a count.
pub open spec fn count_rest(s: Seq<u8>, lo: usize, hi: usize) -> Seq<u8> {
    draw_rest(s, (if lo <= hi { lo } else { hi }) as u64, hi as u64)
}

} // verus!
