use vstd::prelude::*;

use crate::block::{
    spec_created_content_child, spec_created_name_child, spec_created_parent, spec_created_store,
    spec_embed_display, spec_page_display,
};
use crate::display::{
    ComponentV, EditableFieldV, HeaderV, component_editable, spec_content_component,
    spec_page_header,
};
use crate::gate::spec_can_edit;
use crate::model::{BlockV, PropertyV};
use crate::payload::payload_of;
use crate::resolver::{
    block_with_id, first_property, lemma_block_with_id_append, lemma_block_with_id_none,
    lemma_first_property_append, lemma_first_property_none, spec_resolve,
};
use crate::store::StoreV;

verus! {

/// A parent block without `"name"` or `"content"` edges composes, for any
/// viewer, to the literal placeholders in both the page and the embed
/// view; the empty slots are no error.
pub proof fn lemma_no_edges_renders_placeholders(s: StoreV, block: BlockV, viewer: Option<int>)
    requires
        forall|i: int|
            0 <= i < s.properties.len() ==> ((#[trigger] s.properties[i]).parent_id == block.id
                ==> s.properties[i].property_name != "name"@ && s.properties[i].property_name
                != "content"@),
    ensures
        spec_page_display(s, block, viewer).header == HeaderV::Text("Untitled Block"@),
        spec_page_display(s, block, viewer).body == ComponentV::Text("Empty Block"@),
        spec_embed_display(s, block, viewer).header.title == "Untitled Block"@,
        spec_embed_display(s, block, viewer).content == ComponentV::Text("Empty Block"@),
{
    lemma_first_property_none(s.properties, block.id, "name"@);
    lemma_first_property_none(s.properties, block.id, "content"@);
}

/// An edge whose referenced block has gone missing resolves its slot to
/// nothing rather than failing.
pub proof fn lemma_dangling_edge_resolves_none(s: StoreV, parent: int, name: Seq<char>)
    requires
        first_property(s.properties, parent, name) matches Some(edge) && block_with_id(
            s.blocks,
            edge.value_id,
        ) is None,
    ensures
        spec_resolve(s, parent, name) is None,
{
}

/// A viewer without edit rights on the content block never receives an
/// editable content surface, whatever raw data the block carries.
pub proof fn lemma_closed_without_edit_rights(slot: Option<BlockV>, viewer: Option<int>)
    requires
        slot matches Some(b) ==> !spec_can_edit(viewer, b),
    ensures
        !component_editable(spec_content_component(slot, viewer)),
{
}

/// An editable surface appears exactly after a successful edit check: the
/// content component is editable if and only if the content block resolved
/// and the viewer's edit check on it succeeds, and an editable page header
/// likewise only follows a successful check on the name block. No default
/// ever opens a surface.
pub proof fn lemma_editable_only_after_confirmation(slot: Option<BlockV>, viewer: Option<int>)
    ensures
        component_editable(spec_content_component(slot, viewer)) <==> (slot matches Some(b)
            && spec_can_edit(viewer, b)),
        spec_page_header(slot, viewer) matches HeaderV::Edit(f) ==> (slot matches Some(b)
            && spec_can_edit(viewer, b) && f.editable),
{
}

/// Composition is idempotent: any two compositions over identical block
/// state and viewer identity are structurally identical, because each
/// composer pins its output to the one specified value.
pub proof fn lemma_composition_idempotent(
    s: StoreV,
    block: BlockV,
    viewer: Option<int>,
    page_a: crate::display::PageDisplayV,
    page_b: crate::display::PageDisplayV,
    card_a: crate::display::CardComponentV,
    card_b: crate::display::CardComponentV,
)
    requires
        page_a == spec_page_display(s, block, viewer),
        page_b == spec_page_display(s, block, viewer),
        card_a == spec_embed_display(s, block, viewer),
        card_b == spec_embed_display(s, block, viewer),
    ensures
        page_a == page_b,
        card_a == card_b,
{
}

/// Round trip: after a successful creation from a payload with the given
/// name and content, the new parent's slots resolve to its two children,
/// and the page composed for the owner — who holds edit rights on both —
/// shows the name and the content in editable surfaces.
pub proof fn lemma_create_round_trip(
    s: StoreV,
    input: Seq<char>,
    owner: int,
    name: Seq<char>,
    content: Seq<char>,
)
    requires
        s.wf(),
        payload_of(input) == Some((name, content)),
    ensures
        ({
            let s2 = spec_created_store(s, owner, name, content);
            let parent = spec_created_parent(s, owner);
            &&& spec_resolve(s2, parent.id, "name"@) == Some(
                spec_created_name_child(s, owner, name),
            )
            &&& spec_resolve(s2, parent.id, "content"@) == Some(
                spec_created_content_child(s, owner, content),
            )
            &&& spec_page_display(s2, parent, Some(owner)).header == HeaderV::Edit(
                EditableFieldV {
                    block_id: s.next_id + 1,
                    label: "Group Name"@,
                    value: name,
                    editable: true,
                },
            )
            &&& spec_page_display(s2, parent, Some(owner)).body == ComponentV::Edit(
                EditableFieldV {
                    block_id: s.next_id + 2,
                    label: "Text..."@,
                    value: content,
                    editable: true,
                },
            )
        }),
{
    let s2 = spec_created_store(s, owner, name, content);
    let parent = spec_created_parent(s, owner);
    let name_child = spec_created_name_child(s, owner, name);
    let content_child = spec_created_content_child(s, owner, content);
    let nid = s.next_id;
    let name_edge = PropertyV { parent_id: nid, property_name: "name"@, value_id: nid + 1 };
    let content_edge = PropertyV { parent_id: nid, property_name: "content"@, value_id: nid + 2 };

    reveal_strlit("name");
    reveal_strlit("content");
    reveal_with_fuel(first_property, 4);
    reveal_with_fuel(block_with_id, 4);
    assert("name"@.len() == 4);
    assert("content"@.len() == 7);

    // The old edges name parents strictly below the new identity, so the
    // new edges are the first matches.
    assert(s2.properties =~= s.properties + seq![name_edge, content_edge]);
    assert forall|i: int|
        0 <= i < s.properties.len() implies !((#[trigger] s.properties[i]).parent_id == parent.id
        && s.properties[i].property_name == "name"@) by {}
    assert forall|i: int|
        0 <= i < s.properties.len() implies !((#[trigger] s.properties[i]).parent_id == parent.id
        && s.properties[i].property_name == "content"@) by {}
    lemma_first_property_none(s.properties, parent.id, "name"@);
    lemma_first_property_none(s.properties, parent.id, "content"@);
    lemma_first_property_append(s.properties, seq![name_edge, content_edge], parent.id, "name"@);
    lemma_first_property_append(s.properties, seq![name_edge, content_edge], parent.id, "content"@);
    assert(seq![name_edge, content_edge].drop_first() =~= seq![content_edge]);
    assert(first_property(seq![name_edge, content_edge], parent.id, "name"@) == Some(name_edge));
    assert(first_property(seq![name_edge, content_edge], parent.id, "content"@) == Some(
        content_edge,
    ));

    // The old blocks hold identities strictly below the children's, so the
    // children are what their identities fetch.
    assert(s2.blocks =~= s.blocks + seq![parent, name_child, content_child]);
    lemma_block_with_id_none(s.blocks, nid + 1);
    lemma_block_with_id_none(s.blocks, nid + 2);
    lemma_block_with_id_append(s.blocks, seq![parent, name_child, content_child], nid + 1);
    lemma_block_with_id_append(s.blocks, seq![parent, name_child, content_child], nid + 2);
    assert(seq![parent, name_child, content_child].drop_first() =~= seq![name_child, content_child]);
    assert(seq![name_child, content_child].drop_first() =~= seq![content_child]);
    assert(block_with_id(seq![parent, name_child, content_child], nid + 1) == Some(name_child));
    assert(block_with_id(seq![parent, name_child, content_child], nid + 2) == Some(content_child));
}

} // verus!
