use vstd::prelude::*;

use crate::model::{Block, BlockV, Property, PropertyV};
use crate::store::{Store, StoreV};

verus! {

/// The first property edge of `parent` carrying the given name, if any.
/// When duplicate edges share one name for one parent, the first loaded
/// edge wins and the rest are ignored; that is a documented policy, not an
/// invariant of the stored data.
pub open spec fn first_property(
    properties: Seq<PropertyV>,
    parent: int,
    name: Seq<char>,
) -> Option<PropertyV>
    decreases properties.len(),
{
    if properties.len() == 0 {
        None
    } else if properties[0].parent_id == parent && properties[0].property_name == name {
        Some(properties[0])
    } else {
        first_property(properties.drop_first(), parent, name)
    }
}

/// The first stored block with the given identity, if any.
pub open spec fn block_with_id(blocks: Seq<BlockV>, id: int) -> Option<BlockV>
    decreases blocks.len(),
{
    if blocks.len() == 0 {
        None
    } else if blocks[0].id == id {
        Some(blocks[0])
    } else {
        block_with_id(blocks.drop_first(), id)
    }
}

/// What one named slot of `parent` resolves to: the block its first edge of
/// that name references, or nothing when no such edge exists or the edge
/// points at a now-missing block. A missing optional relationship is never
/// an error.
pub open spec fn spec_resolve(s: StoreV, parent: int, name: Seq<char>) -> Option<BlockV> {
    match first_property(s.properties, parent, name) {
        None => None,
        Some(edge) => block_with_id(s.blocks, edge.value_id),
    }
}

/// An edge table in which nothing matches yields no first match.
pub proof fn lemma_first_property_none(properties: Seq<PropertyV>, parent: int, name: Seq<char>)
    requires
        forall|i: int|
            0 <= i < properties.len() ==> !((#[trigger] properties[i]).parent_id == parent
                && properties[i].property_name == name),
    ensures
        first_property(properties, parent, name) is None,
    decreases properties.len(),
{
    if properties.len() != 0 {
        let rest = properties.drop_first();
        assert forall|i: int|
            0 <= i < rest.len() implies !((#[trigger] rest[i]).parent_id == parent
            && rest[i].property_name == name) by {
            assert(rest[i] == properties[i + 1]);
        }
        lemma_first_property_none(rest, parent, name);
    }
}

/// The first match in a joined edge table: a match in the front part wins,
/// else the search continues in the back part.
pub proof fn lemma_first_property_append(
    front: Seq<PropertyV>,
    back: Seq<PropertyV>,
    parent: int,
    name: Seq<char>,
)
    ensures
        first_property(front + back, parent, name) == match first_property(front, parent, name) {
            Some(edge) => Some(edge),
            None => first_property(back, parent, name),
        },
    decreases front.len(),
{
    if front.len() == 0 {
        assert(front + back =~= back);
    } else {
        assert((front + back)[0] == front[0]);
        assert((front + back).drop_first() =~= front.drop_first() + back);
        lemma_first_property_append(front.drop_first(), back, parent, name);
    }
}

/// A block table in which no identity matches yields no block.
pub proof fn lemma_block_with_id_none(blocks: Seq<BlockV>, id: int)
    requires
        forall|i: int| 0 <= i < blocks.len() ==> (#[trigger] blocks[i]).id != id,
    ensures
        block_with_id(blocks, id) is None,
    decreases blocks.len(),
{
    if blocks.len() != 0 {
        let rest = blocks.drop_first();
        assert forall|i: int| 0 <= i < rest.len() implies (#[trigger] rest[i]).id != id by {
            assert(rest[i] == blocks[i + 1]);
        }
        lemma_block_with_id_none(rest, id);
    }
}

/// The first identity match in a joined block table: the front part wins,
/// else the search continues in the back part.
pub proof fn lemma_block_with_id_append(front: Seq<BlockV>, back: Seq<BlockV>, id: int)
    ensures
        block_with_id(front + back, id) == match block_with_id(front, id) {
            Some(b) => Some(b),
            None => block_with_id(back, id),
        },
    decreases front.len(),
{
    if front.len() == 0 {
        assert(front + back =~= back);
    } else {
        assert((front + back)[0] == front[0]);
        assert((front + back).drop_first() =~= front.drop_first() + back);
        lemma_block_with_id_append(front.drop_first(), back, id);
    }
}

/// Splitting off the first element of the edge table steps the search.
proof fn lemma_first_property_skip(
    properties: Seq<PropertyV>,
    i: int,
    parent: int,
    name: Seq<char>,
)
    requires
        0 <= i < properties.len(),
    ensures
        first_property(properties.skip(i), parent, name) == {
            if properties[i].parent_id == parent && properties[i].property_name == name {
                Some(properties[i])
            } else {
                first_property(properties.skip(i + 1), parent, name)
            }
        },
{
    assert(properties.skip(i)[0] == properties[i]);
    assert(properties.skip(i).drop_first() =~= properties.skip(i + 1));
}

/// The same step for the block table.
proof fn lemma_block_with_id_skip(blocks: Seq<BlockV>, i: int, id: int)
    requires
        0 <= i < blocks.len(),
    ensures
        block_with_id(blocks.skip(i), id) == {
            if blocks[i].id == id {
                Some(blocks[i])
            } else {
                block_with_id(blocks.skip(i + 1), id)
            }
        },
{
    assert(blocks.skip(i)[0] == blocks[i]);
    assert(blocks.skip(i).drop_first() =~= blocks.skip(i + 1));
}

/// Fetches the block with the given identity, tolerating absence: a
/// referenced block may have been deleted out from under its edge.
pub fn get_block(store: &Store, id: i64) -> (r: Option<Block>)
    ensures
        crate::model::slot_view(r) == block_with_id(store@.blocks, id as int),
{
    let blocks = store.blocks();
    let ghost all = store@.blocks;
    proof {
        assert(all.skip(0) =~= all);
    }
    let mut i: usize = 0;
    while i < blocks.len()
        invariant
            i <= blocks.len(),
            all == store@.blocks,
            all == blocks@.map_values(|b: Block| b@),
            block_with_id(all, id as int) == block_with_id(all.skip(i as int), id as int),
        decreases blocks.len() - i,
    {
        proof {
            lemma_block_with_id_skip(all, i as int, id as int);
            assert(all[i as int] == blocks@[i as int]@);
        }
        if blocks[i].id == id {
            return Some(blocks[i].clone());
        }
        i = i + 1;
    }
    proof {
        assert(all.skip(all.len() as int) =~= Seq::<BlockV>::empty());
    }
    None
}

/// Finds the first edge of `parent` with the given name, as the resolver's
/// first-wins policy reads the loaded rows.
fn first_edge(store: &Store, parent: i64, name: &str) -> (r: Option<Property>)
    ensures
        (match r {
            Some(p) => Some(p@),
            None => None,
        }) == first_property(store@.properties, parent as int, name@),
{
    let properties = store.properties();
    let ghost all = store@.properties;
    proof {
        assert(all.skip(0) =~= all);
    }
    let key: String = name.to_owned();
    let mut i: usize = 0;
    while i < properties.len()
        invariant
            i <= properties.len(),
            all == store@.properties,
            all == properties@.map_values(|p: Property| p@),
            key@ == name@,
            first_property(all, parent as int, name@) == first_property(
                all.skip(i as int),
                parent as int,
                name@,
            ),
        decreases properties.len() - i,
    {
        proof {
            lemma_first_property_skip(all, i as int, parent as int, name@);
            assert(all[i as int] == properties@[i as int]@);
        }
        let p = &properties[i];
        if p.parent_id == parent && p.property_name == key {
            return Some(
                Property {
                    parent_id: p.parent_id,
                    property_name: p.property_name.clone(),
                    value_id: p.value_id,
                },
            );
        }
        i = i + 1;
    }
    proof {
        assert(all.skip(all.len() as int) =~= Seq::<PropertyV>::empty());
    }
    None
}

/// Resolves one named slot of `parent`: its first edge of that name, then
/// the referenced block, absence tolerated at both steps.
pub fn resolve_slot(store: &Store, parent: i64, name: &str) -> (r: Option<Block>)
    ensures
        crate::model::slot_view(r) == spec_resolve(store@, parent as int, name@),
{
    match first_edge(store, parent, name) {
        None => None,
        Some(edge) => get_block(store, edge.value_id),
    }
}

/// Loads the blocks linked to `block` as its `"name"` and `"content"`
/// sub-fields, in that order. Either slot is `None` if no edge exists for
/// that name or the edge points at a now-missing block.
pub fn text_properties(store: &Store, block: &Block) -> (r: (Option<Block>, Option<Block>))
    ensures
        crate::model::slot_view(r.0) == spec_resolve(store@, block@.id, "name"@),
        crate::model::slot_view(r.1) == spec_resolve(store@, block@.id, "content"@),
{
    let name = resolve_slot(store, block.id, "name");
    let content = resolve_slot(store, block.id, "content");
    (name, content)
}

} // verus!
