use vstd::prelude::*;

use crate::model::{Block, BlockV, Property, PropertyV};

verus! {

/// Mathematical model of a [`Store`]: the block and edge tables and the
/// next identity to hand out.
#[verifier::ext_equal]
pub ghost struct StoreV {
    pub blocks: Seq<BlockV>,
    pub properties: Seq<PropertyV>,
    pub next_id: int,
}

impl StoreV {
    /// Well-formedness of the stored tables: identities are positive,
    /// unique, never reused, and no edge names an identity that was never
    /// handed out. An edge may still point at a deleted block.
    pub open spec fn wf(self) -> bool {
        &&& 1 <= self.next_id
        &&& forall|i: int|
            0 <= i < self.blocks.len() ==> 1 <= (#[trigger] self.blocks[i]).id < self.next_id
        &&& forall|i: int, j: int|
            0 <= i < j < self.blocks.len() ==> self.blocks[i].id != self.blocks[j].id
        &&& forall|i: int|
            0 <= i < self.properties.len() ==> {
                &&& 1 <= (#[trigger] self.properties[i]).parent_id < self.next_id
                &&& 1 <= self.properties[i].value_id < self.next_id
            }
    }
}

/// Whether a block survives the deletion of the block with identity
/// `deleted`.
pub open spec fn remains(deleted: int) -> spec_fn(BlockV) -> bool {
    |b: BlockV| b.id != deleted
}

/// The per-request storage state this module works against: a table of
/// blocks, a table of property edges, and an identity allocator.
pub struct Store {
    blocks: Vec<Block>,
    properties: Vec<Property>,
    next_id: i64,
}

impl View for Store {
    type V = StoreV;

    closed spec fn view(&self) -> StoreV {
        StoreV {
            blocks: self.blocks@.map_values(|b: Block| b@),
            properties: self.properties@.map_values(|p: Property| p@),
            next_id: self.next_id as int,
        }
    }
}

impl Store {
    pub open spec fn wf(&self) -> bool {
        self@.wf()
    }

    /// An empty store, about to hand out identity 1.
    pub fn new() -> (s: Store)
        ensures
            s.wf(),
            s@.blocks == Seq::<BlockV>::empty(),
            s@.properties == Seq::<PropertyV>::empty(),
            s@.next_id == 1,
    {
        let s = Store { blocks: Vec::new(), properties: Vec::new(), next_id: 1 };
        proof {
            assert(s@.blocks =~= Seq::<BlockV>::empty());
            assert(s@.properties =~= Seq::<PropertyV>::empty());
        }
        s
    }

    /// The model of the block allocated by `insert_block` on this state.
    pub open spec fn spec_new_block(
        self,
        block_type: Seq<char>,
        owner_id: int,
        block_data: Option<Seq<char>>,
    ) -> BlockV {
        BlockV {
            id: self@.next_id,
            block_type: block_type,
            owner_id: owner_id,
            block_data: block_data,
            color: None,
        }
    }

    /// Allocates and stores one block of the given type, owned by
    /// `owner_id` and holding the given raw data, and returns it.
    pub fn insert_block(
        &mut self,
        block_type: &str,
        owner_id: i32,
        block_data: Option<String>,
    ) -> (r: Block)
        requires
            old(self).wf(),
            old(self)@.next_id < i64::MAX,
        ensures
            final(self).wf(),
            r@ == old(self).spec_new_block(block_type@, owner_id as int, match block_data {
                Some(d) => Some(d@),
                None => None,
            }),
            final(self)@.blocks == old(self)@.blocks.push(r@),
            final(self)@.properties == old(self)@.properties,
            final(self)@.next_id == old(self)@.next_id + 1,
    {
        let id = self.next_id;
        let stored = Block {
            id,
            block_type: block_type.to_owned(),
            owner_id,
            block_data,
            color: None,
        };
        let returned = stored.clone();
        self.blocks.push(stored);
        self.next_id = id + 1;
        proof {
            assert(self@.blocks =~= old(self)@.blocks.push(returned@));
            assert(self@.properties =~= old(self)@.properties);
        }
        returned
    }

    /// Stores one property edge from `parent_id` to `value_id` under the
    /// given name. Both identities must already have been handed out.
    pub fn insert_property(&mut self, parent_id: i64, property_name: &str, value_id: i64)
        requires
            old(self).wf(),
            1 <= parent_id < old(self)@.next_id,
            1 <= value_id < old(self)@.next_id,
        ensures
            final(self).wf(),
            final(self)@.properties == old(self)@.properties.push(
                PropertyV {
                    parent_id: parent_id as int,
                    property_name: property_name@,
                    value_id: value_id as int,
                },
            ),
            final(self)@.blocks == old(self)@.blocks,
            final(self)@.next_id == old(self)@.next_id,
    {
        let edge = Property { parent_id, property_name: property_name.to_owned(), value_id };
        let ghost edge_v = edge@;
        self.properties.push(edge);
        proof {
            assert(self@.properties =~= old(self)@.properties.push(edge_v));
            assert(self@.blocks =~= old(self)@.blocks);
        }
    }

    /// The stored blocks, for callers that read the table as loaded rows.
    pub fn blocks(&self) -> (r: &Vec<Block>)
        ensures
            r@.map_values(|b: Block| b@) == self@.blocks,
    {
        &self.blocks
    }

    /// The stored property edges, as loaded rows.
    pub fn properties(&self) -> (r: &Vec<Property>)
        ensures
            r@.map_values(|p: Property| p@) == self@.properties,
    {
        &self.properties
    }

    /// How many blocks the store holds.
    pub fn block_count(&self) -> (n: usize)
        ensures
            n == self@.blocks.len(),
    {
        self.blocks.len()
    }

    /// How many property edges the store holds.
    pub fn property_count(&self) -> (n: usize)
        ensures
            n == self@.properties.len(),
    {
        self.properties.len()
    }

    /// Deletes the block with the given identity, if any; edges pointing at
    /// it are left in place, dangling, as the storage layer allows.
    pub fn delete_block(&mut self, id: i64)
        ensures
            final(self)@.blocks == old(self)@.blocks.filter(remains(id as int)),
            final(self)@.properties == old(self)@.properties,
            final(self)@.next_id == old(self)@.next_id,
            old(self).wf() ==> final(self).wf(),
    {
        let ghost old_blocks = self@.blocks;
        let ghost pred = remains(id as int);
        let mut kept: Vec<Block> = Vec::new();
        let mut i: usize = 0;
        while i < self.blocks.len()
            invariant
                i <= self.blocks.len(),
                old_blocks == self.blocks@.map_values(|b: Block| b@),
                pred == remains(id as int),
                kept@.map_values(|b: Block| b@) == old_blocks.take(i as int).filter(pred),
            decreases self.blocks.len() - i,
        {
            let b = self.blocks[i].clone();
            if b.id != id {
                kept.push(b);
            }
            proof {
                reveal_with_fuel(Seq::<_>::filter, 2);
                assert(old_blocks.take(i as int + 1).drop_last() =~= old_blocks.take(i as int));
                assert(old_blocks.take(i as int + 1).last() == old_blocks[i as int]);
                assert(kept@.map_values(|b: Block| b@) =~= old_blocks.take(i as int + 1).filter(
                    pred,
                ));
            }
            i = i + 1;
        }
        proof {
            assert(old_blocks.take(old_blocks.len() as int) =~= old_blocks);
        }
        self.blocks = kept;
        proof {
            if old(self).wf() {
                lemma_filter_keeps_wf(old_blocks, pred, old(self)@.next_id);
            }
        }
    }
}

/// Filtering a block table keeps every well-formedness fact about it: each
/// kept row comes from the table, so identity bounds and uniqueness carry
/// over.
proof fn lemma_filter_keeps_wf(blocks: Seq<BlockV>, pred: spec_fn(BlockV) -> bool, next_id: int)
    requires
        forall|i: int| 0 <= i < blocks.len() ==> 1 <= (#[trigger] blocks[i]).id < next_id,
        forall|i: int, j: int| 0 <= i < j < blocks.len() ==> blocks[i].id != blocks[j].id,
    ensures
        forall|i: int|
            0 <= i < blocks.filter(pred).len() ==> blocks.contains(#[trigger] blocks.filter(pred)[i]),
        forall|i: int|
            0 <= i < blocks.filter(pred).len() ==> 1 <= (#[trigger] blocks.filter(pred)[i]).id
                < next_id,
        forall|i: int, j: int|
            0 <= i < j < blocks.filter(pred).len() ==> blocks.filter(pred)[i].id != blocks.filter(
                pred,
            )[j].id,
    decreases blocks.len(),
{
    reveal_with_fuel(Seq::<_>::filter, 2);
    if blocks.len() != 0 {
        let rest = blocks.drop_last();
        let kept = blocks.filter(pred);
        lemma_filter_keeps_wf(rest, pred, next_id);
        assert forall|x: BlockV| rest.contains(x) implies blocks.contains(x) by {
            let k = choose|k: int| 0 <= k < rest.len() && rest[k] == x;
            assert(blocks[k] == x);
        }
        if pred(blocks.last()) {
            assert(kept == rest.filter(pred).push(blocks.last()));
            assert(blocks.contains(blocks.last())) by {
                assert(blocks[blocks.len() - 1] == blocks.last());
            }
            assert forall|i: int, j: int|
                0 <= i < j < kept.len() implies kept[i].id != kept[j].id by {
                if j == kept.len() - 1 {
                    let fi = kept[i];
                    assert(rest.filter(pred)[i] == fi);
                    assert(rest.contains(fi));
                    let k = choose|k: int| 0 <= k < rest.len() && rest[k] == fi;
                    assert(blocks[k] == fi);
                    assert(blocks[k].id != blocks[blocks.len() - 1].id);
                }
            }
        } else {
            assert(kept == rest.filter(pred));
        }
    }
}

} // verus!
