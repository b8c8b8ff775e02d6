use vstd::prelude::*;

use crate::model::{Block, BlockV, viewer_id};

verus! {

/// Whether the viewer may see the block's data. The host's sharing and
/// token machinery sits in front of this module; within the module every
/// resolved block is viewable, and edit rights are layered strictly on top
/// of view rights below.
pub open spec fn spec_can_view(viewer: Option<int>, block: BlockV) -> bool {
    true
}

/// Whether the viewer may change the block's data: only an authenticated
/// viewer, only the block's owner, and only when viewing is allowed too.
/// The default is closed: absence of an identity grants nothing.
pub open spec fn spec_can_edit(viewer: Option<int>, block: BlockV) -> bool {
    match viewer {
        Some(user) => user == block.owner_id && spec_can_view(viewer, block),
        None => false,
    }
}

/// The view decision for one viewer-block pair.
pub fn can_view(viewer: Option<i32>, block: &Block) -> (r: bool)
    ensures
        r == spec_can_view(viewer_id(viewer), block@),
{
    true
}

/// The edit decision for one viewer-block pair.
pub fn can_edit(viewer: Option<i32>, block: &Block) -> (r: bool)
    ensures
        r == spec_can_edit(viewer_id(viewer), block@),
{
    match viewer {
        Some(user) => user == block.owner_id && can_view(viewer, block),
        None => false,
    }
}

/// An unauthenticated viewer is never granted edit, whatever the block.
pub proof fn lemma_anonymous_never_edits(block: BlockV)
    ensures
        !spec_can_edit(None, block),
{
}

/// Edit is a strict superset check: whoever may edit has first been
/// confirmed able to view; edit is never granted without view.
pub proof fn lemma_edit_implies_view(viewer: Option<int>, block: BlockV)
    ensures
        spec_can_edit(viewer, block) ==> spec_can_view(viewer, block),
{
}

} // verus!
