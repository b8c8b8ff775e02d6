use vstd::prelude::*;

use crate::display::{
    CardComponent, CardIcon, CreationForm, EditableField, PageDisplay, compose_create_form,
    compose_embed, compose_page, editable_richtext, spec_compose_embed, spec_compose_page,
    spec_create_form, spec_editable_richtext,
};
use crate::model::{Block, BlockError, BlockV, viewer_id};
use crate::payload::{parse_payload, payload_of};
use crate::resolver::{spec_resolve, text_properties};
use crate::store::{Store, StoreV};

verus! {

/// The text block type: a parent block whose `"name"` and `"content"`
/// property edges link it to the two data blocks holding its fields.
pub struct TextBlock {}

/// What the host's registry shows for a block type: its tag, icon and
/// description.
#[derive(Debug, PartialEq, Eq)]
pub struct TypeInfo {
    pub name: String,
    pub icon: CardIcon,
    pub desc: String,
}

/// Mathematical model of a [`TypeInfo`].
#[verifier::ext_equal]
pub ghost struct TypeInfoV {
    pub name: Seq<char>,
    pub icon: CardIcon,
    pub desc: Seq<char>,
}

impl View for TypeInfo {
    type V = TypeInfoV;

    open spec fn view(&self) -> TypeInfoV {
        TypeInfoV { name: self.name@, icon: self.icon, desc: self.desc@ }
    }
}

/// The page view of a block in a given store, as seen by a viewer.
pub open spec fn spec_page_display(s: StoreV, block: BlockV, viewer: Option<int>) -> crate::display::PageDisplayV {
    spec_compose_page(
        block,
        spec_resolve(s, block.id, "name"@),
        spec_resolve(s, block.id, "content"@),
        viewer,
    )
}

/// The embed/card view of a block in a given store, as seen by a viewer.
pub open spec fn spec_embed_display(s: StoreV, block: BlockV, viewer: Option<int>) -> crate::display::CardComponentV {
    spec_compose_embed(
        block,
        spec_resolve(s, block.id, "name"@),
        spec_resolve(s, block.id, "content"@),
        viewer,
    )
}

/// The model of the parent block `handle_create` allocates on a store.
pub open spec fn spec_created_parent(s: StoreV, owner: int) -> BlockV {
    BlockV { id: s.next_id, block_type: "text"@, owner_id: owner, block_data: None, color: None }
}

/// The model of the name child block `handle_create` allocates.
pub open spec fn spec_created_name_child(s: StoreV, owner: int, name: Seq<char>) -> BlockV {
    BlockV {
        id: s.next_id + 1,
        block_type: "data"@,
        owner_id: owner,
        block_data: Some(name),
        color: None,
    }
}

/// The model of the content child block `handle_create` allocates.
pub open spec fn spec_created_content_child(s: StoreV, owner: int, content: Seq<char>) -> BlockV {
    BlockV {
        id: s.next_id + 2,
        block_type: "data"@,
        owner_id: owner,
        block_data: Some(content),
        color: None,
    }
}

/// The store after a successful creation: the parent and its two children
/// appended to the block table, and the `"name"` and `"content"` edges, in
/// that order, appended to the edge table.
pub open spec fn spec_created_store(s: StoreV, owner: int, name: Seq<char>, content: Seq<char>) -> StoreV {
    StoreV {
        blocks: s.blocks.push(spec_created_parent(s, owner)).push(
            spec_created_name_child(s, owner, name),
        ).push(spec_created_content_child(s, owner, content)),
        properties: s.properties.push(
            crate::model::PropertyV {
                parent_id: s.next_id,
                property_name: "name"@,
                value_id: s.next_id + 1,
            },
        ).push(
            crate::model::PropertyV {
                parent_id: s.next_id,
                property_name: "content"@,
                value_id: s.next_id + 2,
            },
        ),
        next_id: s.next_id + 3,
    }
}

impl TextBlock {
    /// The stable type tag of this block type.
    pub fn name() -> (r: String)
        ensures
            r@ == "text"@,
    {
        "text".to_owned()
    }

    /// What the host's registry shows for this block type.
    pub fn info() -> (r: TypeInfo)
        ensures
            r@.name == "text"@,
            r@.icon == CardIcon::Type,
            r@.desc == "Text blocks can have special formatting"@,
    {
        TypeInfo {
            name: Self::name(),
            icon: CardIcon::Type,
            desc: "Text blocks can have special formatting".to_owned(),
        }
    }

    /// The human-readable name of this block type.
    pub fn block_name(_store: &Store, _block: &Block) -> (r: Result<String, BlockError>)
        ensures
            r matches Ok(n) && n@ == "Text Block"@,
    {
        Ok("Text Block".to_owned())
    }

    /// Composes the full-page view of `block` for the viewer: its resolved
    /// name as header (editable for viewers who may edit the name block),
    /// its resolved content as body (editable for viewers who may edit the
    /// content block), and a menu for authenticated viewers.
    pub fn handle_page_display(store: &Store, block: &Block, viewer: Option<i32>) -> (r: Result<
        PageDisplay,
        BlockError,
    >)
        ensures
            r matches Ok(d) && d@ == spec_page_display(store@, block@, viewer_id(viewer)),
    {
        let (name_slot, content_slot) = text_properties(store, block);
        Ok(compose_page(block, &name_slot, &content_slot, viewer))
    }

    /// Composes the embed/card view of `block` for the viewer. This entry
    /// returns the card itself, not a fallible result: embed rendering must
    /// never abort the page around it, and composing from already-loaded
    /// state cannot fail.
    pub fn handle_embed_display(store: &Store, block: &Block, viewer: Option<i32>) -> (r:
        CardComponent)
        ensures
            r@ == spec_embed_display(store@, block@, viewer_id(viewer)),
    {
        let (name_slot, content_slot) = text_properties(store, block);
        compose_embed(block, &name_slot, &content_slot, viewer)
    }

    /// The masked edit surface over one block's data, editable exactly for
    /// a viewer whose edit check on that block succeeds.
    pub fn rightfully_editable_richtext(viewer: Option<i32>, block: &Block) -> (c: EditableField)
        ensures
            c@ == spec_editable_richtext(viewer_id(viewer), block@),
    {
        editable_richtext(viewer, block)
    }

    /// The static creation form for this block type.
    pub fn handle_create_display() -> (r: Result<CreationForm, BlockError>)
        ensures
            r matches Ok(f) && f@ == spec_create_form(),
    {
        Ok(compose_create_form())
    }

    /// Creates a text block from a raw creation payload, owned by
    /// `user_id`: one parent block, its two child data blocks holding the
    /// payload's `name` and `content` strings, and the two property edges
    /// linking them. The five writes land together or not at all: a payload
    /// that fails to decode yields an `InputParse` error and leaves the
    /// store untouched.
    pub fn handle_create(store: &mut Store, input: &str, user_id: i32) -> (r: Result<
        Block,
        BlockError,
    >)
        requires
            old(store).wf(),
            old(store)@.next_id + 3 <= i64::MAX,
        ensures
            final(store).wf(),
            r is Ok <==> payload_of(input@) is Some,
            r matches Ok(b) ==> {
                &&& b@ == spec_created_parent(old(store)@, user_id as int)
                &&& payload_of(input@) matches Some(p) && final(store)@ == spec_created_store(
                    old(store)@,
                    user_id as int,
                    p.0,
                    p.1,
                )
            },
            r matches Err(e) ==> {
                &&& e == BlockError::InputParse
                &&& final(store)@ == old(store)@
            },
    {
        let payload = match parse_payload(input) {
            Some(p) => p,
            None => {
                return Err(BlockError::InputParse);
            },
        };
        let (name, content) = payload;
        let parent = store.insert_block("text", user_id, None);
        let name_block = store.insert_block("data", user_id, Some(name));
        let content_block = store.insert_block("data", user_id, Some(content));
        store.insert_property(parent.id, "name", name_block.id);
        store.insert_property(parent.id, "content", content_block.id);
        proof {
            assert(store@ =~= spec_created_store(
                old(store)@,
                user_id as int,
                payload.0@,
                payload.1@,
            ));
        }
        Ok(parent)
    }

    /// This block type defines no custom methods: every delegation fails
    /// with a method-not-found error naming the method and this type's tag.
    pub fn method_delegate(_store: &Store, method: String, _block_id: i64, _args: &str) -> (r:
        Result<Block, BlockError>)
        ensures
            r matches Err(e) && e matches BlockError::MethodNotFound(m, t) && m@ == method@ && t@
                == "text"@,
    {
        Err(BlockError::MethodNotFound(method, Self::name()))
    }
}

} // verus!
