//! The nullifier registry: one bit for every nullifier, held in chunks of
//! 256 bits that are created when first needed. A bit that is set stays set.

use vstd::prelude::*;

verus! {

/// The number of nullifiers that one chunk tracks.
pub const CHUNK_BITS: u64 = 256;

/// The answer of the registry to a nullifier that it will not mark: it is
/// spent, or the chunk asked is not the nullifier's own.
#[derive(Clone, Copy, Debug, PartialEq, Eq, Structural)]
pub struct AlreadyUsed;

/// The answer of the registry when asked to create a chunk that exists.
#[derive(Clone, Copy, Debug, PartialEq, Eq, Structural)]
pub struct ChunkExists;

/// The little-endian number that the first eight bytes of a nullifier spell.
pub open spec fn prefix_of(nullifier: Seq<u8>) -> nat
    recommends
        nullifier.len() >= 8,
{
    (nullifier[0] as nat) + (nullifier[1] as nat) * 0x100 + (nullifier[2] as nat) * 0x1_0000
        + (nullifier[3] as nat) * 0x100_0000 + (nullifier[4] as nat) * 0x1_0000_0000
        + (nullifier[5] as nat) * 0x100_0000_0000 + (nullifier[6] as nat) * 0x1_0000_0000_0000
        + (nullifier[7] as nat) * 0x100_0000_0000_0000
}

/// The index of the chunk that tracks a nullifier.
pub open spec fn chunk_index_of(nullifier: Seq<u8>) -> nat {
    prefix_of(nullifier) / 256
}

/// The position of a nullifier's bit within its chunk.
pub open spec fn bit_index_of(nullifier: Seq<u8>) -> nat {
    prefix_of(nullifier) % 256
}

/// Whether bit `k` of `byte` is set, counting from the lowest.
pub open spec fn byte_has(byte: u8, k: u8) -> bool {
    byte & (1u8 << k) != 0
}

/// Whether `bitmap` has the bit at position `bit` set: bit `bit % 8` of
/// byte `bit / 8`.
pub open spec fn bitmap_has(bitmap: Seq<u8>, bit: u8) -> bool {
    byte_has(bitmap[(bit / 8) as int], bit % 8)
}

/// `bitmap` with the bit at position `bit` set and every other bit kept.
pub open spec fn bitmap_with(bitmap: Seq<u8>, bit: u8) -> Seq<u8> {
    bitmap.update((bit / 8) as int, bitmap[(bit / 8) as int] | (1u8 << (bit % 8)))
}

/// Setting a bit of a byte sets that bit and no other.
pub proof fn lemma_set_bit(byte: u8, k: u8, j: u8)
    requires
        k < 8,
        j < 8,
    ensures
        byte_has(byte | (1u8 << k), j) == (byte_has(byte, j) || j == k),
{
    assert((byte | (1u8 << k)) & (1u8 << j) != 0 <==> (byte & (1u8 << j) != 0 || j == k))
        by (bit_vector)
        requires
            k < 8,
            j < 8,
    ;
}

/// Setting a bit of a bitmap sets that bit and no other.
pub proof fn lemma_bitmap_with(bitmap: Seq<u8>, bit: u8, other: u8)
    requires
        bitmap.len() == 32,
    ensures
        bitmap_has(bitmap_with(bitmap, bit), other) == (bitmap_has(bitmap, other) || other
            == bit),
{
    if other / 8 == bit / 8 {
        lemma_set_bit(bitmap[(bit / 8) as int], bit % 8, other % 8);
    }
}

/// The chunk and the bit that track `nullifier`.
pub fn locate(nullifier: &[u8; 32]) -> (r: (u64, u8))
    ensures
        r.0 == chunk_index_of(nullifier@),
        r.1 == bit_index_of(nullifier@),
{
    let high: u64 = (nullifier[1] as u64) + (nullifier[2] as u64) * 0x100 + (nullifier[3] as u64)
        * 0x1_0000 + (nullifier[4] as u64) * 0x100_0000 + (nullifier[5] as u64) * 0x1_0000_0000
        + (nullifier[6] as u64) * 0x100_0000_0000 + (nullifier[7] as u64) * 0x1_0000_0000_0000;
    assert(prefix_of(nullifier@) == (nullifier[0] as nat) + 256 * (high as nat));
    (high, nullifier[0])
}

/// One chunk of the registry: the bits of the 256 nullifiers whose chunk
/// index is `index`.
#[derive(Clone, Copy, Debug, PartialEq, Eq)]
pub struct NullifierChunk {
    pub index: u64,
    pub bitmap: [u8; 32],
    pub bump: u8,
}

impl NullifierChunk {
    /// Whether the nullifier at position `bit` of this chunk is spent.
    pub open spec fn is_spent(&self, bit: u8) -> bool {
        bitmap_has(self.bitmap@, bit)
    }

    /// The positions of the spent nullifiers of this chunk.
    pub open spec fn spent(&self) -> Set<u8> {
        Set::new(|bit: u8| self.is_spent(bit))
    }

    /// Whether this is chunk `index` as it is created: every byte zero.
    pub open spec fn is_fresh(&self, index: u64) -> bool {
        self.index == index && self.bump == 0 && self.bitmap@ == Seq::new(32, |i: int| 0u8)
    }

    /// A chunk for `index` with no nullifier spent.
    pub fn new(index: u64) -> (r: NullifierChunk)
        ensures
            r.is_fresh(index),
            r.spent() == Set::<u8>::empty(),
            forall|bit: u8| !r.is_spent(bit),
    {
        let r = NullifierChunk { index, bitmap: [0u8;32], bump: 0 };
        proof {
            assert(r.bitmap@ =~= Seq::new(32, |i: int| 0u8));
            assert forall|bit: u8| !r.is_spent(bit) by {
                assert(0u8 & (1u8 << (bit % 8)) == 0) by (bit_vector);
            }
            assert(r.spent() =~= Set::<u8>::empty());
        }
        r
    }

    /// Whether the nullifier at position `bit` of this chunk is spent.
    pub fn test(&self, bit: u8) -> (r: bool)
        ensures
            r == self.is_spent(bit),
    {
        let byte: u8 = self.bitmap[(bit / 8) as usize];
        let k: u8 = bit % 8;
        assert(k < 8);
        byte & (1u8 << k) != 0
    }

    /// Marks the nullifier at `bit_index` of chunk `chunk_index` as spent, in
    /// one step with the test that it was not. Refuses, and changes nothing,
    /// when this chunk is not chunk `chunk_index` or the bit is set.
    pub fn mark_if_unused(&mut self, chunk_index: u64, bit_index: u8) -> (r: Result<
        (),
        AlreadyUsed,
    >)
        ensures
            r.is_ok() == (old(self).index == chunk_index && !old(self).is_spent(bit_index)),
            r.is_ok() ==> final(self).index == old(self).index && final(self).bump == old(self).bump && final(self).bitmap@ == bitmap_with(old(self).bitmap@, bit_index)
                && final(self).spent() == old(self).spent().insert(bit_index)
                && final(self).is_spent(bit_index),
            r.is_err() ==> *final(self) == *old(self),
            old(self).spent().subset_of(final(self).spent()),
    {
        if self.index != chunk_index {
            return Err(AlreadyUsed);
        }
        if self.test(bit_index) {
            return Err(AlreadyUsed);
        }
        let at: usize = (bit_index / 8) as usize;
        let k: u8 = bit_index % 8;
        assert(k < 8);
        let byte: u8 = self.bitmap[at];
        self.bitmap[at] = byte | (1u8 << k);
        proof {
            assert(self.bitmap@ =~= bitmap_with(old(self).bitmap@, bit_index));
            assert forall|other: u8|
                self.is_spent(other) == (old(self).is_spent(other) || other
                    == bit_index) by {
                lemma_bitmap_with(old(self).bitmap@, bit_index, other);
            }
            assert(self.spent() =~= old(self).spent().insert(bit_index));
        }
        Ok(())
    }
}

/// One change of the registry.
pub enum RegistryStep {
    /// The creation of the chunk with this index.
    Create(u64),
    /// The marking of this bit of the chunk with this index.
    Mark(u64, u8),
}

/// The registry after `step`, as a map from each chunk's index to the
/// positions spent in it. A chunk that exists is not created again, and a
/// bit is marked only in a chunk that exists.
pub open spec fn after_step(registry: Map<u64, Set<u8>>, step: RegistryStep) -> Map<
    u64,
    Set<u8>,
> {
    match step {
        RegistryStep::Create(index) => if registry.dom().contains(index) {
            registry
        } else {
            registry.insert(index, Set::empty())
        },
        RegistryStep::Mark(index, bit) => if registry.dom().contains(index) {
            registry.insert(index, registry[index].insert(bit))
        } else {
            registry
        },
    }
}

/// The registry after `steps`, one after the other.
pub open spec fn after_steps(registry: Map<u64, Set<u8>>, steps: Seq<RegistryStep>) -> Map<
    u64,
    Set<u8>,
>
    decreases steps.len(),
{
    if steps.len() == 0 {
        registry
    } else {
        after_step(after_steps(registry, steps.drop_last()), steps.last())
    }
}

/// The registry is monotonic: whatever is created and marked afterwards,
/// a chunk that exists stays, and a bit that is set stays set.
pub proof fn law_registry_monotonic(
    registry: Map<u64, Set<u8>>,
    steps: Seq<RegistryStep>,
    index: u64,
    bit: u8,
)
    requires
        registry.dom().contains(index),
    ensures
        after_steps(registry, steps).dom().contains(index),
        registry[index].contains(bit) ==> after_steps(registry, steps)[index].contains(bit),
    decreases steps.len(),
{
    if steps.len() > 0 {
        law_registry_monotonic(registry, steps.drop_last(), index, bit);
    }
}

/// Whether `after` holds the chunks of `before`, as many and in the same
/// order, each as it was but the chunks with the index `index`: these keep
/// their index and their bump and have the bit at `bit` set and every other
/// bit kept.
pub open spec fn chunks_marked(
    before: Seq<NullifierChunk>,
    after: Seq<NullifierChunk>,
    index: u64,
    bit: u8,
) -> bool {
    &&& after.len() == before.len()
    &&& forall|i: int|
        0 <= i < before.len() && before[i].index != index ==> #[trigger] after[i] == before[i]
    &&& forall|i: int|
        0 <= i < before.len() && before[i].index == index ==> (#[trigger] after[i]).index
            == index && after[i].bump == before[i].bump && after[i].bitmap@ == bitmap_with(
            before[i].bitmap@,
            bit,
        )
}

/// The registry: the chunks created so far, found by their index.
#[derive(Clone, Debug, PartialEq, Eq)]
pub struct NullifierRegistry {
    pub chunks: Vec<NullifierChunk>,
}

impl View for NullifierRegistry {
    type V = Map<u64, Set<u8>>;

    /// Each chunk's index with the positions spent in the chunk.
    open spec fn view(&self) -> Map<u64, Set<u8>> {
        Map::new(|index: u64| self.has_chunk(index), |index: u64| self.spent_in(index))
    }
}

impl NullifierRegistry {
    /// No two chunks have the same index.
    pub open spec fn wf(&self) -> bool {
        forall|i: int, j: int|
            0 <= i < j < self.chunks@.len() ==> self.chunks@[i].index != self.chunks@[j].index
    }

    /// Whether chunk `index` was created.
    pub open spec fn has_chunk(&self, index: u64) -> bool {
        exists|i: int| 0 <= i < self.chunks@.len() && #[trigger] self.chunks@[i].index == index
    }

    /// Whether the nullifier at position `bit` of chunk `index` is spent.
    /// Nothing is spent in a chunk that was never created.
    pub open spec fn is_spent(&self, index: u64, bit: u8) -> bool {
        exists|i: int|
            0 <= i < self.chunks@.len() && #[trigger] self.chunks@[i].index == index
                && self.chunks@[i].is_spent(bit)
    }

    /// The positions spent in chunk `index`.
    pub open spec fn spent_in(&self, index: u64) -> Set<u8> {
        Set::new(|bit: u8| self.is_spent(index, bit))
    }

    /// Whether `nullifier` is spent.
    pub open spec fn holds(&self, nullifier: Seq<u8>) -> bool {
        self.is_spent(chunk_index_of(nullifier) as u64, bit_index_of(nullifier) as u8)
    }

    /// A registry without chunks.
    pub fn new() -> (r: NullifierRegistry)
        ensures
            r.wf(),
            r.chunks@.len() == 0,
            forall|index: u64| !r.has_chunk(index),
            forall|index: u64, bit: u8| !r.is_spent(index, bit),
            r@ == Map::<u64, Set<u8>>::empty(),
    {
        let r = NullifierRegistry { chunks: Vec::new() };
        assert(r@ =~= Map::<u64, Set<u8>>::empty());
        r
    }

    /// Where chunk `index` stands, if it was created.
    pub fn find(&self, index: u64) -> (r: Option<usize>)
        ensures
            r.is_some() == self.has_chunk(index),
            r matches Some(at) ==> at < self.chunks@.len() && self.chunks@[at as int].index
                == index && forall|j: int| 0 <= j < at ==> self.chunks@[j].index != index,
    {
        let mut i: usize = 0;
        while i < self.chunks.len()
            invariant
                i <= self.chunks@.len(),
                forall|j: int| 0 <= j < i ==> self.chunks@[j].index != index,
            decreases self.chunks@.len() - i,
        {
            if self.chunks[i].index == index {
                return Some(i);
            }
            i += 1;
        }
        None
    }

    /// Whether the nullifier at position `bit` of chunk `index` is spent.
    pub fn test(&self, index: u64, bit: u8) -> (r: bool)
        requires
            self.wf(),
        ensures
            r == self.is_spent(index, bit),
    {
        match self.find(index) {
            Some(at) => self.chunks[at].test(bit),
            None => false,
        }
    }

    /// Creates chunk `index` with no nullifier spent. Refuses, and changes
    /// nothing, when the chunk exists: creating it again would clear its bits.
    pub fn create_chunk(&mut self, index: u64) -> (r: Result<(), ChunkExists>)
        requires
            old(self).wf(),
        ensures
            final(self).wf(),
            r.is_ok() == !old(self).has_chunk(index),
            r.is_ok() ==> final(self).chunks@.len() == old(self).chunks@.len() + 1
                && final(self).chunks@.drop_last() == old(self).chunks@ && final(self).chunks@.last().is_fresh(index),
            r.is_ok() ==> forall|k: u64| #[trigger]
                final(self).has_chunk(k) == (old(self).has_chunk(k) || k == index),
            r.is_ok() ==> forall|k: u64, bit: u8| #[trigger]
                final(self).is_spent(k, bit) == old(self).is_spent(k, bit),
            r.is_err() ==> *final(self) == *old(self),
            final(self)@ == after_step(old(self)@, RegistryStep::Create(index)),
    {
        if self.find(index).is_some() {
            return Err(ChunkExists);
        }
        let chunk = NullifierChunk::new(index);
        self.chunks.push(chunk);
        proof {
            let before = old(self).chunks@;
            let after = self.chunks@;
            let last = before.len() as int;
            assert(after.drop_last() =~= before);
            assert(forall|i: int| 0 <= i < last ==> after[i] == before[i]);
            assert(after[last].index == index);
            assert forall|k: u64| #[trigger]
                self.has_chunk(k) == (old(self).has_chunk(k) || k == index) by {
                if old(self).has_chunk(k) {
                    let i = choose|i: int| 0 <= i < last && #[trigger] before[i].index == k;
                    assert(after[i].index == k);
                }
                if k == index {
                    assert(after[last].index == k);
                }
            }
            assert forall|k: u64, bit: u8| #[trigger]
                self.is_spent(k, bit) == old(self).is_spent(k, bit) by {
                if old(self).is_spent(k, bit) {
                    let i = choose|i: int|
                        0 <= i < last && #[trigger] before[i].index == k && before[i].is_spent(
                            bit,
                        );
                    assert(after[i].index == k && after[i].is_spent(bit));
                }
                if self.is_spent(k, bit) {
                    let i = choose|i: int|
                        0 <= i < after.len() && #[trigger] after[i].index == k
                            && after[i].is_spent(bit);
                    assert(!chunk.spent().contains(bit));
                    assert(i != last);
                    assert(before[i].index == k && before[i].is_spent(bit));
                }
            }
            let expected = after_step(old(self)@, RegistryStep::Create(index));
            assert forall|k: u64| #[trigger] self@.dom().contains(k) implies self@[k]
                == expected[k] by {
                if k == index {
                    assert(self.spent_in(k) =~= Set::<u8>::empty());
                } else {
                    assert(self.spent_in(k) =~= old(self).spent_in(k));
                }
            }
            assert(self@ =~= expected);
        }
        Ok(())
    }

    /// Marks the nullifier at `bit_index` of chunk `chunk_index` as spent, in
    /// one step with the test that it was not. Refuses, and changes nothing,
    /// when the chunk was never created or the bit is set.
    pub fn mark_if_unused(&mut self, chunk_index: u64, bit_index: u8) -> (r: Result<
        (),
        AlreadyUsed,
    >)
        requires
            old(self).wf(),
        ensures
            final(self).wf(),
            r.is_ok() == (old(self).has_chunk(chunk_index) && !old(self).is_spent(
                chunk_index,
                bit_index,
            )),
            r.is_ok() ==> forall|k: u64, bit: u8| #[trigger]
                final(self).is_spent(k, bit) == (old(self).is_spent(k, bit) || (k == chunk_index
                    && bit == bit_index)),
            r.is_ok() ==> chunks_marked(
                old(self).chunks@,
                final(self).chunks@,
                chunk_index,
                bit_index,
            ),
            forall|k: u64| #[trigger] final(self).has_chunk(k) == old(self).has_chunk(k),
            r.is_err() ==> *final(self) == *old(self),
            final(self)@ == after_step(old(self)@, RegistryStep::Mark(chunk_index, bit_index)),
    {
        let at: usize = match self.find(chunk_index) {
            Some(at) => at,
            None => {
                return Err(AlreadyUsed);
            },
        };
        let mut chunk: NullifierChunk = self.chunks[at];
        let marked = chunk.mark_if_unused(chunk_index, bit_index);
        if marked.is_err() {
            proof {
                if old(self).is_spent(chunk_index, bit_index) {
                    let i = choose|i: int|
                        0 <= i < self.chunks@.len() && #[trigger] self.chunks@[i].index
                            == chunk_index && self.chunks@[i].is_spent(bit_index);
                    assert(i == at);
                }
                assert(self.is_spent(chunk_index, bit_index)) by {
                    assert(self.chunks@[at as int].index == chunk_index);
                }
                assert(self.spent_in(chunk_index).insert(bit_index) =~= self.spent_in(
                    chunk_index,
                ));
                assert(self@ =~= after_step(self@, RegistryStep::Mark(chunk_index, bit_index)));
            }
            return Err(AlreadyUsed);
        }
        self.chunks.set(at, chunk);
        proof {
            let before = old(self).chunks@;
            let after = self.chunks@;
            assert(forall|i: int| 0 <= i < before.len() ==> after[i].index == before[i].index);
            assert forall|i: int| 0 <= i < before.len() && before[i].index
                == chunk_index implies i == at by {}
            assert(chunks_marked(before, after, chunk_index, bit_index));
            assert forall|k: u64| #[trigger]
                self.has_chunk(k) == old(self).has_chunk(k) by {
                if old(self).has_chunk(k) {
                    let i = choose|i: int|
                        0 <= i < before.len() && #[trigger] before[i].index == k;
                    assert(after[i].index == k);
                }
                if self.has_chunk(k) {
                    let i = choose|i: int| 0 <= i < after.len() && #[trigger] after[i].index == k;
                    assert(before[i].index == k);
                }
            }
            assert forall|k: u64, bit: u8| #[trigger]
                self.is_spent(k, bit) == (old(self).is_spent(k, bit) || (k == chunk_index && bit
                    == bit_index)) by {
                lemma_bitmap_with(before[at as int].bitmap@, bit_index, bit);
                if old(self).is_spent(k, bit) {
                    let i = choose|i: int|
                        0 <= i < before.len() && #[trigger] before[i].index == k
                            && before[i].is_spent(bit);
                    assert(after[i].index == k && after[i].is_spent(bit));
                }
                if k == chunk_index && bit == bit_index {
                    assert(after[at as int].index == k && after[at as int].is_spent(bit));
                }
                if self.is_spent(k, bit) {
                    let i = choose|i: int|
                        0 <= i < after.len() && #[trigger] after[i].index == k
                            && after[i].is_spent(bit);
                    if i != at {
                        assert(before[i].index == k && before[i].is_spent(bit));
                    } else if bit != bit_index {
                        assert(before[i].index == k && before[i].is_spent(bit));
                    }
                }
            }
            let expected = after_step(old(self)@, RegistryStep::Mark(chunk_index, bit_index));
            assert forall|k: u64| #[trigger] self@.dom().contains(k) implies self@[k]
                == expected[k] by {
                if k == chunk_index {
                    assert(self.spent_in(k) =~= old(self).spent_in(k).insert(bit_index));
                } else {
                    assert(self.spent_in(k) =~= old(self).spent_in(k));
                }
            }
            assert(self@ =~= expected);
        }
        Ok(())
    }

    /// Spends `nullifier`: marks its bit in its chunk. Refuses, and changes
    /// nothing, when the nullifier is spent or its chunk was never created.
    pub fn spend(&mut self, nullifier: &[u8; 32]) -> (r: Result<(), AlreadyUsed>)
        requires
            old(self).wf(),
        ensures
            final(self).wf(),
            r.is_ok() == (old(self).has_chunk(chunk_index_of(nullifier@) as u64) && !old(self).holds(nullifier@)),
            r.is_ok() ==> final(self).holds(nullifier@),
            r.is_ok() ==> forall|k: u64, bit: u8| #[trigger]
                final(self).is_spent(k, bit) == (old(self).is_spent(k, bit) || (k
                    == chunk_index_of(nullifier@) && bit == bit_index_of(nullifier@))),
            r.is_ok() ==> chunks_marked(
                old(self).chunks@,
                final(self).chunks@,
                chunk_index_of(nullifier@) as u64,
                bit_index_of(nullifier@) as u8,
            ),
            forall|k: u64| #[trigger] final(self).has_chunk(k) == old(self).has_chunk(k),
            r.is_err() ==> *final(self) == *old(self),
            final(self)@ == after_step(
                old(self)@,
                RegistryStep::Mark(
                    chunk_index_of(nullifier@) as u64,
                    bit_index_of(nullifier@) as u8,
                ),
            ),
    {
        let (chunk_index, bit_index) = locate(nullifier);
        self.mark_if_unused(chunk_index, bit_index)
    }
}

} // verus!
