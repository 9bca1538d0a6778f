//! The container that keeps the blocks of an address space in order of
//! their base addresses.
use crate::mem::Block;
use vstd::prelude::*;

verus! {

/// `base` owns `addr` among `bases`: it is the greatest of them that does
/// not exceed `addr`.
pub open spec fn owns(bases: Set<u32>, base: u32, addr: u32) -> bool {
    &&& bases.contains(base)
    &&& base <= addr
    &&& forall|other: u32| bases.contains(other) && other <= addr ==> other <= base
}

/// The blocks of an address space, each found by its base address.
///
/// As a value it is a map from base address to the bytes of the block that
/// starts there. The bases are kept in strictly ascending order, so no base
/// occurs twice and the owner of an address is found from the top down. The
/// block of `bases[i]` is `blocks[i]`.
pub struct BlockMap {
    bases: Vec<u32>,
    blocks: Vec<Block>,
}

/// Whether each base is greater than the one before it.
spec fn ascending(bases: Seq<u32>) -> bool {
    forall|i: int, j: int| 0 <= i < j < bases.len() ==> bases[i] < bases[j]
}

/// The map that parallel sequences of bases and blocks stand for.
spec fn model(bases: Seq<u32>, blocks: Seq<Block>) -> Map<u32, Seq<u8>> {
    Map::new(|base: u32| bases.contains(base), |base: u32| blocks[bases.index_of(base)]@)
}

/// In an ascending sequence a base stands at one index only, and the model
/// maps it to the block at that index.
proof fn lemma_model_at(bases: Seq<u32>, blocks: Seq<Block>, i: int)
    requires
        ascending(bases),
        0 <= i < bases.len(),
    ensures
        bases.contains(bases[i]),
        bases.index_of(bases[i]) == i,
        model(bases, blocks).contains_key(bases[i]),
        model(bases, blocks)[bases[i]] == blocks[i]@,
{
}

/// Replacing the block at index `i` replaces the value at `bases[i]`.
proof fn lemma_model_update(bases: Seq<u32>, blocks: Seq<Block>, i: int, block: Block)
    requires
        ascending(bases),
        bases.len() == blocks.len(),
        0 <= i < bases.len(),
    ensures
        model(bases, blocks.update(i, block)) == model(bases, blocks).insert(bases[i], block@),
{
    let after = model(bases, blocks.update(i, block));
    let expected = model(bases, blocks).insert(bases[i], block@);
    assert forall|base: u32| after.contains_key(base) implies #[trigger] after[base]
        == expected[base] by {
        let j = bases.index_of(base);
        lemma_model_at(bases, blocks, j);
        lemma_model_at(bases, blocks.update(i, block), j);
    }
    lemma_model_at(bases, blocks, i);
    assert(after =~= expected);
}

/// Putting a new base in at its place in the order adds one entry.
proof fn lemma_model_insert(bases: Seq<u32>, blocks: Seq<Block>, i: int, base: u32, block: Block)
    requires
        ascending(bases),
        bases.len() == blocks.len(),
        0 <= i <= bases.len(),
        forall|j: int| 0 <= j < i ==> bases[j] < base,
        forall|j: int| i <= j < bases.len() ==> base < bases[j],
    ensures
        ascending(bases.insert(i, base)),
        model(bases.insert(i, base), blocks.insert(i, block)) == model(bases, blocks).insert(
            base,
            block@,
        ),
{
    let bases2 = bases.insert(i, base);
    let blocks2 = blocks.insert(i, block);
    let after = model(bases2, blocks2);
    let expected = model(bases, blocks).insert(base, block@);
    assert(ascending(bases2));
    assert(bases2[i] == base);
    lemma_model_at(bases2, blocks2, i);
    assert forall|b: u32| expected.contains_key(b) implies after.contains_key(b) by {
        if b != base {
            let j = bases.index_of(b);
            if j < i {
                assert(bases2[j] == b);
            } else {
                assert(bases2[j + 1] == b);
            }
        }
    }
    assert forall|b: u32| after.contains_key(b) implies expected.contains_key(b) && after[b]
        == expected[b] by {
        let k = bases2.index_of(b);
        lemma_model_at(bases2, blocks2, k);
        if k < i {
            assert(bases[k] == b);
            lemma_model_at(bases, blocks, k);
        } else if k > i {
            assert(bases[k - 1] == b);
            lemma_model_at(bases, blocks, k - 1);
        }
    }
    assert(after =~= expected);
}

impl View for BlockMap {
    type V = Map<u32, Seq<u8>>;

    closed spec fn view(&self) -> Map<u32, Seq<u8>> {
        model(self.bases@, self.blocks@)
    }
}

impl BlockMap {
    /// There is one block for each base, and the bases ascend.
    #[verifier::type_invariant]
    spec fn ordered(self) -> bool {
        &&& self.bases@.len() == self.blocks@.len()
        &&& ascending(self.bases@)
    }

    /// An address space with no block in it.
    pub fn new() -> (map: BlockMap)
        ensures
            map@ == Map::<u32, Seq<u8>>::empty(),
    {
        let map = BlockMap { bases: Vec::new(), blocks: Vec::new() };
        assert(map@ =~= Map::<u32, Seq<u8>>::empty());
        map
    }

    /// The index of the base that owns `addr`, if any.
    fn floor_index(&self, addr: u32) -> (r: Option<usize>)
        ensures
            match r {
                Some(i) => i < self.bases@.len() && self.bases@[i as int] <= addr && owns(
                    self@.dom(),
                    self.bases@[i as int],
                    addr,
                ) && forall|j: int| i < j < self.bases@.len() ==> self.bases@[j] > addr,
                None => forall|j: int| 0 <= j < self.bases@.len() ==> self.bases@[j] > addr,
            },
    {
        proof {
            use_type_invariant(self);
        }
        let mut i: usize = self.bases.len();
        while i > 0
            invariant
                i <= self.bases@.len(),
                ascending(self.bases@),
                forall|j: int| i <= j < self.bases@.len() ==> self.bases@[j] > addr,
            decreases i,
        {
            i = i - 1;
            if self.bases[i] <= addr {
                proof {
                    lemma_model_at(self.bases@, self.blocks@, i as int);
                }
                return Some(i);
            }
        }
        None
    }

    /// The index of `base`, if a block stands there.
    fn index_of(&self, base: u32) -> (r: Option<usize>)
        ensures
            match r {
                Some(i) => i < self.bases@.len() && self.bases@[i as int] == base,
                None => !self@.contains_key(base),
            },
    {
        match self.floor_index(base) {
            Some(i) => {
                if self.bases[i] == base {
                    Some(i)
                } else {
                    None
                }
            },
            None => None,
        }
    }

    /// Tells whether a block stands at `base`.
    pub fn contains_key(&self, base: &u32) -> (found: bool)
        ensures
            found == self@.contains_key(*base),
    {
        proof {
            use_type_invariant(self);
        }
        match self.index_of(*base) {
            Some(i) => {
                proof {
                    lemma_model_at(self.bases@, self.blocks@, i as int);
                }
                true
            },
            None => false,
        }
    }

    /// The block that stands at `base`, if any.
    pub fn get(&self, base: &u32) -> (r: Option<&Block>)
        ensures
            match r {
                Some(block) => self@.contains_key(*base) && block@ == self@[*base],
                None => !self@.contains_key(*base),
            },
    {
        proof {
            use_type_invariant(self);
        }
        match self.index_of(*base) {
            Some(i) => {
                proof {
                    lemma_model_at(self.bases@, self.blocks@, i as int);
                }
                Some(&self.blocks[i])
            },
            None => None,
        }
    }

    /// The block that stands at `base`, if any, for writing. What the
    /// caller leaves in the block is what the map then holds at `base`.
    pub fn get_mut(&mut self, base: &u32) -> (r: Option<&mut Block>)
        ensures
            match r {
                Some(block) => old(self)@.contains_key(*base) && block@ == old(self)@[*base]
                    && final(self)@ == old(self)@.insert(*base, final(block)@),
                None => !old(self)@.contains_key(*base) && final(self)@ == old(self)@,
            },
    {
        proof {
            use_type_invariant(&*self);
        }
        match self.index_of(*base) {
            Some(i) => {
                proof {
                    lemma_model_at(self.bases@, self.blocks@, i as int);
                }
                let block = &mut self.blocks[i];
                proof {
                    lemma_model_update(
                        old(self).bases@,
                        old(self).blocks@,
                        i as int,
                        *final(block),
                    );
                }
                Some(block)
            },
            None => None,
        }
    }

    /// The region that owns `addr`: the greatest base that does not exceed
    /// `addr`, and the block that stands there.
    pub fn floor(&self, addr: u32) -> (r: Option<(u32, &Block)>)
        ensures
            match r {
                Some((base, block)) => owns(self@.dom(), base, addr) && block@ == self@[base],
                None => forall|base: u32| self@.contains_key(base) ==> base > addr,
            },
    {
        proof {
            use_type_invariant(self);
        }
        match self.floor_index(addr) {
            Some(i) => {
                proof {
                    lemma_model_at(self.bases@, self.blocks@, i as int);
                }
                Some((self.bases[i], &self.blocks[i]))
            },
            None => None,
        }
    }

    /// The region that owns `addr`, for writing. What the caller leaves in
    /// the block is what the map then holds at its base.
    pub fn floor_mut(&mut self, addr: u32) -> (r: Option<(u32, &mut Block)>)
        ensures
            match r {
                Some((base, block)) => owns(old(self)@.dom(), base, addr) && block@ == old(
                    self,
                )@[base] && final(self)@ == old(self)@.insert(base, final(block)@),
                None => (forall|base: u32| old(self)@.contains_key(base) ==> base > addr)
                    && final(self)@ == old(self)@,
            },
    {
        proof {
            use_type_invariant(&*self);
        }
        match self.floor_index(addr) {
            Some(i) => {
                proof {
                    lemma_model_at(self.bases@, self.blocks@, i as int);
                }
                let base: u32 = self.bases[i];
                let block = &mut self.blocks[i];
                proof {
                    lemma_model_update(
                        old(self).bases@,
                        old(self).blocks@,
                        i as int,
                        *final(block),
                    );
                }
                Some((base, block))
            },
            None => None,
        }
    }

    /// Puts `block` at `base`. A block that stood there before is replaced
    /// and handed back.
    pub fn insert(&mut self, base: u32, block: Block) -> (previous: Option<Block>)
        ensures
            final(self)@ == old(self)@.insert(base, block@),
            match previous {
                Some(before) => old(self)@.contains_key(base) && before@ == old(self)@[base],
                None => !old(self)@.contains_key(base),
            },
    {
        proof {
            use_type_invariant(&*self);
        }
        let mut taken = BlockMap::new();
        core::mem::swap(self, &mut taken);
        let BlockMap { mut bases, mut blocks } = taken;
        let ghost bases0 = bases@;
        let ghost blocks0 = blocks@;
        let mut i: usize = 0;
        while i < bases.len() && bases[i] < base
            invariant
                i <= bases@.len(),
                bases@ == bases0,
                ascending(bases@),
                forall|j: int| 0 <= j < i ==> bases@[j] < base,
            decreases bases@.len() - i,
        {
            i = i + 1;
        }
        if i < bases.len() && bases[i] == base {
            proof {
                lemma_model_at(bases0, blocks0, i as int);
                lemma_model_update(bases0, blocks0, i as int, block);
            }
            blocks.push(block);
            let before = blocks.swap_remove(i);
            assert(blocks@ =~= blocks0.update(i as int, block));
            *self = BlockMap { bases, blocks };
            Some(before)
        } else {
            proof {
                lemma_model_insert(bases0, blocks0, i as int, base, block);
                assert(!bases0.contains(base));
            }
            bases.insert(i, base);
            blocks.insert(i, block);
            *self = BlockMap { bases, blocks };
            None
        }
    }
}

} // verus!
