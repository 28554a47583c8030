//! Minting of message, step and call ids.

use vstd::prelude::*;
use crate::text::string_of;

verus! {

/// Decimal rendering of `n`.
pub open spec fn dec_seq(n: nat) -> Seq<char>
    decreases n,
{
    if n < 10 {
        seq![digit_char(n)]
    } else {
        dec_seq(n / 10).push(digit_char(n % 10))
    }
}

/// The ASCII digit for `d < 10`.
pub open spec fn digit_char(d: nat) -> char {
    if d == 0 { '0' }
    else if d == 1 { '1' }
    else if d == 2 { '2' }
    else if d == 3 { '3' }
    else if d == 4 { '4' }
    else if d == 5 { '5' }
    else if d == 6 { '6' }
    else if d == 7 { '7' }
    else if d == 8 { '8' }
    else { '9' }
}

fn digit(d: u64) -> (r: char)
    requires
        d < 10,
    ensures
        r == digit_char(d as nat),
{
    if d == 0 { '0' }
    else if d == 1 { '1' }
    else if d == 2 { '2' }
    else if d == 3 { '3' }
    else if d == 4 { '4' }
    else if d == 5 { '5' }
    else if d == 6 { '6' }
    else if d == 7 { '7' }
    else if d == 8 { '8' }
    else { '9' }
}

fn dec_chars(n: u64) -> (r: Vec<char>)
    ensures
        r@ == dec_seq(n as nat),
    decreases n,
{
    if n < 10 {
        let mut v = Vec::new();
        v.push(digit(n));
        v
    } else {
        let mut v = dec_chars(n / 10);
        v.push(digit(n % 10));
        v
    }
}

/// Decimal rendering of `n`.
pub fn decimal(n: u64) -> (r: String)
    ensures
        r@ == dec_seq(n as nat),
{
    let v = dec_chars(n);
    string_of(v.as_slice())
}

/// Source of fresh ids `<prefix>-<seed>-<n>`: the seed distinguishes
/// processes, the counter distinguishes ids of one source.
pub struct IdMinter {
    seed: String,
    next: u64,
}

/// The id a source with `seed` mints as its `n`-th id under `prefix`.
pub open spec fn minted_id(prefix: Seq<char>, seed: Seq<char>, n: nat) -> Seq<char> {
    prefix + "-"@ + seed + "-"@ + dec_seq(n)
}

impl IdMinter {
    pub closed spec fn seed_spec(&self) -> Seq<char> {
        self.seed@
    }

    pub closed spec fn counter(&self) -> nat {
        self.next as nat
    }

    /// A source whose ids carry `seed`.
    pub fn new(seed: String) -> (r: IdMinter)
        ensures
            r.seed_spec() == seed@,
            r.counter() == 0,
    {
        IdMinter { seed, next: 0 }
    }

    /// A fresh id `<prefix>-<seed>-<n>`.
    pub fn mint(&mut self, prefix: &str) -> (r: String)
        ensures
            r@ == minted_id(prefix@, old(self).seed_spec(), old(self).counter()),
            final(self).seed_spec() == old(self).seed_spec(),
            final(self).counter() == (old(self).counter() + 1) % 0x1_0000_0000_0000_0000,
    {
        let n = decimal(self.next);
        let mut out = String::from_str(prefix);
        out.append("-");
        out.append(self.seed.as_str());
        out.append("-");
        out.append(n.as_str());
        self.next = self.next.wrapping_add(1);
        out
    }

    /// Ids minted so far.
    pub fn minted(&self) -> (r: u64)
        ensures
            r == self.counter(),
    {
        self.next
    }
}

} // verus!
