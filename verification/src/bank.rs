//! Sparse store for the 32-bit device registers, keyed by full bus address.
//!
//! The store is append-only: a write pushes a `(address, value)` pair and a
//! read scans backwards for the newest entry. Its view is the map that the
//! entries build up left to right, so a write is exactly `Map::insert` and a
//! read of an address that was never written yields the reset value zero.

use vstd::prelude::*;

verus! {

/// The value an address holds in `m`, with zero for addresses never written.
pub open spec fn reg_val(m: Map<u32, u32>, addr: u32) -> u32 {
    if m.contains_key(addr) {
        m[addr]
    } else {
        0
    }
}

pub struct RegBank {
    entries: Vec<(u32, u32)>,
}

/// The map described by a prefix of the entry list; later entries win.
pub open spec fn entries_map(s: Seq<(u32, u32)>) -> Map<u32, u32>
    decreases s.len(),
{
    if s.len() == 0 {
        Map::empty()
    } else {
        entries_map(s.drop_last()).insert(s.last().0, s.last().1)
    }
}

impl View for RegBank {
    type V = Map<u32, u32>;

    closed spec fn view(&self) -> Map<u32, u32> {
        entries_map(self.entries@)
    }
}

/// An entry list whose tail from `i` on avoids `addr` maps `addr` the same
/// way its prefix up to `i` does.
proof fn lemma_tail_free(s: Seq<(u32, u32)>, i: int, addr: u32)
    requires
        0 <= i <= s.len(),
        forall|j: int| i <= j < s.len() ==> (#[trigger] s[j]).0 != addr,
    ensures
        entries_map(s).contains_key(addr) == entries_map(s.take(i)).contains_key(addr),
        entries_map(s).contains_key(addr) ==> entries_map(s)[addr] == entries_map(s.take(i))[addr],
    decreases s.len() - i,
{
    if i < s.len() {
        let t = s.take(s.len() - 1);
        assert(t.take(i) =~= s.take(i));
        assert(s.drop_last() =~= t);
        lemma_tail_free(t, i, addr);
    } else {
        assert(s.take(i) =~= s);
    }
}

impl RegBank {
    pub fn new() -> (r: RegBank)
        ensures
            r@ == Map::<u32, u32>::empty(),
    {
        RegBank { entries: Vec::new() }
    }

    pub fn set(&mut self, addr: u32, v: u32)
        ensures
            final(self)@ == old(self)@.insert(addr, v),
    {
        self.entries.push((addr, v));
        proof {
            assert(self.entries@.drop_last() =~= old(self).entries@);
        }
    }

    pub fn get(&self, addr: u32) -> (r: u32)
        ensures
            r == reg_val(self@, addr),
    {
        let n = self.entries.len();
        let mut i: usize = n;
        while i > 0
            invariant
                i <= n,
                n == self.entries.len(),
                forall|j: int| i <= j < n ==> (#[trigger] self.entries@[j]).0 != addr,
            decreases i,
        {
            i = i - 1;
            let e = self.entries[i];
            if e.0 == addr {
                proof {
                    lemma_tail_free(self.entries@, i + 1, addr);
                    let p = self.entries@.take(i + 1);
                    assert(p.drop_last() =~= self.entries@.take(i as int));
                    assert(p.last() == self.entries@[i as int]);
                }
                return e.1;
            }
        }
        proof {
            lemma_tail_free(self.entries@, 0, addr);
            assert(self.entries@.take(0) =~= Seq::<(u32, u32)>::empty());
        }
        0
    }
}

} // verus!
