//! Identity of streamed message blocks: the live bubble and the persisted
//! row of a thought or reasoning block share one id, minted on first use.

use vstd::prelude::*;
use crate::ids::{IdMinter, minted_id};
use crate::json::eq_str;

verus! {

/// A streamed block: session, step, run and kind.
pub type BlockKey = (Seq<char>, u32, u64, Seq<char>);

/// One minted id and the block it belongs to.
pub type BlockEntry = (String, u32, u64, String, String);

/// Key of an entry.
pub open spec fn entry_key(e: BlockEntry) -> BlockKey {
    (e.0@, e.1, e.2, e.3@)
}

/// The id minted for `k`, looking from the newest entry back.
pub open spec fn lookup(entries: Seq<BlockEntry>, k: BlockKey) -> Option<Seq<char>>
    decreases entries.len(),
{
    if entries.len() == 0 {
        None
    } else if entry_key(entries.last()) == k {
        Some(entries.last().4@)
    } else {
        lookup(entries.drop_last(), k)
    }
}

/// Prefix of the ids of a block kind: a thought block is the content view of
/// its step and shares the step's `step-` ids; other blocks get `msg-` ids.
pub open spec fn block_prefix(kind: Seq<char>) -> Seq<char> {
    if kind == "thought"@ {
        "step"@
    } else {
        "msg"@
    }
}

fn block_prefix_of(kind: &str) -> (r: &'static str)
    ensures
        r@ == block_prefix(kind@),
{
    if eq_str(kind, "thought") {
        "step"
    } else {
        "msg"
    }
}

/// Minted ids of streamed blocks, with the source of fresh ones.
pub struct IdentityMap {
    entries: Vec<BlockEntry>,
    minter: IdMinter,
}

impl IdentityMap {
    /// The minted ids.
    pub closed spec fn entries_v(&self) -> Seq<BlockEntry> {
        self.entries@
    }

    /// The id minted for `k`, if any.
    pub open spec fn id_of(&self, k: BlockKey) -> Option<Seq<char>> {
        lookup(self.entries_v(), k)
    }

    /// Seed of the fresh ids.
    pub closed spec fn seed_v(&self) -> Seq<char> {
        self.minter.seed_spec()
    }

    /// Fresh ids minted so far.
    pub closed spec fn minted_v(&self) -> nat {
        self.minter.counter()
    }

    /// An empty map whose fresh ids carry `seed`.
    pub fn with_seed(seed: String) -> (r: IdentityMap)
        ensures
            forall|k: BlockKey| r.id_of(k) is None,
            r.seed_v() == seed@,
            r.minted_v() == 0,
    {
        IdentityMap { entries: Vec::new(), minter: IdMinter::new(seed) }
    }

    /// An empty map.
    pub fn new() -> (r: IdentityMap)
        ensures
            forall|k: BlockKey| r.id_of(k) is None,
            r.minted_v() == 0,
    {
        IdentityMap::with_seed(String::from_str("stream"))
    }

    fn find(&self, session_id: &str, step: u32, run: u64, kind: &str) -> (r: Option<usize>)
        ensures
            match r {
                Some(i) => i < self.entries@.len() && self.id_of((session_id@, step, run, kind@)) == Some(
                    self.entries@[i as int].4@,
                ),
                None => self.id_of((session_id@, step, run, kind@)) is None,
            },
    {
        let ghost k = (session_id@, step, run, kind@);
        let mut i = self.entries.len();
        proof {
            assert(self.entries@.take(i as int) == self.entries@);
        }
        while i > 0
            invariant
                i <= self.entries@.len(),
                k == (session_id@, step, run, kind@),
                lookup(self.entries@.take(i as int), k) == lookup(self.entries@, k),
            decreases i,
        {
            let ghost pre = self.entries@.take(i as int);
            i -= 1;
            proof {
                assert(pre.drop_last() == self.entries@.take(i as int));
                assert(pre.last() == self.entries@[i as int]);
            }
            let e = &self.entries[i];
            if e.1 == step && e.2 == run && eq_str(e.0.as_str(), session_id) && eq_str(e.3.as_str(), kind) {
                return Some(i);
            }
        }
        None
    }

    /// Id a streamed block of `(session, step, run, kind)` accumulates
    /// into: the one minted before, else a fresh one that is kept.
    pub fn ensure_msg_id(&mut self, session_id: &str, step: u32, run: u64, kind: &str) -> (r: String)
        ensures
            final(self).id_of((session_id@, step, run, kind@)) == Some(r@),
            final(self).seed_v() == old(self).seed_v(),
            match old(self).id_of((session_id@, step, run, kind@)) {
                Some(id) => r@ == id && final(self).entries_v() == old(self).entries_v()
                    && final(self).minted_v() == old(self).minted_v(),
                None => r@ == minted_id(block_prefix(kind@), old(self).seed_v(), old(self).minted_v())
                    && final(self).minted_v() == (old(self).minted_v() + 1) % 0x1_0000_0000_0000_0000,
            },
            forall|k: BlockKey| k != (session_id@, step, run, kind@) ==> #[trigger] final(self).id_of(k)
                == old(self).id_of(k),
    {
        match self.find(session_id, step, run, kind) {
            Some(i) => self.entries[i].4.clone(),
            None => {
                let id = self.minter.mint(block_prefix_of(kind));
                let ghost before = self.entries@;
                self.entries.push((String::from_str(session_id), step, run, String::from_str(kind), id.clone()));
                proof {
                    assert(self.entries@.drop_last() == before);
                }
                id
            },
        }
    }

    /// The id minted for a block, if it streamed.
    pub fn peek_msg_id(&self, session_id: &str, step: u32, run: u64, kind: &str) -> (r: Option<String>)
        ensures
            match r {
                Some(id) => self.id_of((session_id@, step, run, kind@)) == Some(id@),
                None => self.id_of((session_id@, step, run, kind@)) is None,
            },
    {
        match self.find(session_id, step, run, kind) {
            Some(i) => Some(self.entries[i].4.clone()),
            None => None,
        }
    }

    /// Id a block is persisted under: the minted one when it streamed, else
    /// a fresh id with the kind's prefix, which is not kept.
    pub fn block_msg_id(&mut self, session_id: &str, step: u32, run: u64, kind: &str) -> (r: String)
        ensures
            final(self).entries_v() == old(self).entries_v(),
            final(self).seed_v() == old(self).seed_v(),
            match old(self).id_of((session_id@, step, run, kind@)) {
                Some(id) => r@ == id && final(self).minted_v() == old(self).minted_v(),
                None => r@ == minted_id(block_prefix(kind@), old(self).seed_v(), old(self).minted_v())
                    && final(self).minted_v() == (old(self).minted_v() + 1) % 0x1_0000_0000_0000_0000,
            },
    {
        match self.find(session_id, step, run, kind) {
            Some(i) => self.entries[i].4.clone(),
            None => self.minter.mint(block_prefix_of(kind)),
        }
    }

    /// Forget every id of a session; other sessions keep theirs.
    pub fn clear_for_session(&mut self, session_id: &str)
        ensures
            final(self).seed_v() == old(self).seed_v(),
            final(self).minted_v() == old(self).minted_v(),
            forall|k: BlockKey| #[trigger] final(self).id_of(k) == if k.0 == session_id@ {
                None
            } else {
                old(self).id_of(k)
            },
    {
        let ghost src = self.entries@;
        let mut kept: Vec<BlockEntry> = Vec::new();
        let mut i: usize = 0;
        proof {
            assert forall|k: BlockKey| #[trigger] lookup(kept@, k) == if k.0 == session_id@ {
                None
            } else {
                lookup(src.take(0), k)
            } by {
                assert(src.take(0).len() == 0);
            }
        }
        while i < self.entries.len()
            invariant
                i <= self.entries@.len(),
                src == self.entries@,
                forall|k: BlockKey| #[trigger] lookup(kept@, k) == if k.0 == session_id@ {
                    None
                } else {
                    lookup(src.take(i as int), k)
                },
            decreases self.entries.len() - i,
        {
            let ghost before = kept@;
            let e = &self.entries[i];
            let drop = eq_str(e.0.as_str(), session_id);
            if !drop {
                kept.push((e.0.clone(), e.1, e.2, e.3.clone(), e.4.clone()));
            }
            proof {
                let next = src.take(i + 1);
                assert(next.drop_last() == src.take(i as int));
                assert(next.last() == src[i as int]);
                if !drop {
                    assert(kept@.drop_last() == before);
                }
                assert forall|k: BlockKey| #[trigger] lookup(kept@, k) == if k.0 == session_id@ {
                    None
                } else {
                    lookup(next, k)
                } by {
                    assert(lookup(next, k) == if entry_key(src[i as int]) == k {
                        Some(src[i as int].4@)
                    } else {
                        lookup(src.take(i as int), k)
                    });
                    if !drop {
                        assert(lookup(kept@, k) == if entry_key(kept@.last()) == k {
                            Some(kept@.last().4@)
                        } else {
                            lookup(before, k)
                        });
                    }
                }
            }
            i += 1;
        }
        proof {
            assert(src.take(i as int) == src);
        }
        self.entries = kept;
    }
}

} // verus!
