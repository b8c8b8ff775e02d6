use vstd::prelude::*;

verus! {

/// A stored content unit: identity, a type tag naming the block type that
/// owns it, the creating user, and optional raw payload and color.
#[derive(Debug, PartialEq, Eq)]
pub struct Block {
    pub id: i64,
    pub block_type: String,
    pub owner_id: i32,
    pub block_data: Option<String>,
    pub color: Option<String>,
}

/// Mathematical model of a [`Block`].
#[verifier::ext_equal]
pub ghost struct BlockV {
    pub id: int,
    pub block_type: Seq<char>,
    pub owner_id: int,
    pub block_data: Option<Seq<char>>,
    pub color: Option<Seq<char>>,
}

impl View for Block {
    type V = BlockV;

    open spec fn view(&self) -> BlockV {
        BlockV {
            id: self.id as int,
            block_type: self.block_type@,
            owner_id: self.owner_id as int,
            block_data: match self.block_data {
                Some(d) => Some(d@),
                None => None,
            },
            color: match self.color {
                Some(c) => Some(c@),
                None => None,
            },
        }
    }
}

impl Clone for Block {
    fn clone(&self) -> (r: Block)
        ensures
            r@ == self@,
    {
        Block {
            id: self.id,
            block_type: self.block_type.clone(),
            owner_id: self.owner_id,
            block_data: match &self.block_data {
                Some(d) => Some(d.clone()),
                None => None,
            },
            color: match &self.color {
                Some(c) => Some(c.clone()),
                None => None,
            },
        }
    }
}

/// A named, directed link from a parent block to a child block, used to
/// model structured sub-fields such as `"name"` and `"content"`.
#[derive(Debug, PartialEq, Eq)]
pub struct Property {
    pub parent_id: i64,
    pub property_name: String,
    pub value_id: i64,
}

/// Mathematical model of a [`Property`] edge.
#[verifier::ext_equal]
pub ghost struct PropertyV {
    pub parent_id: int,
    pub property_name: Seq<char>,
    pub value_id: int,
}

impl View for Property {
    type V = PropertyV;

    open spec fn view(&self) -> PropertyV {
        PropertyV {
            parent_id: self.parent_id as int,
            property_name: self.property_name@,
            value_id: self.value_id as int,
        }
    }
}

/// The errors this block type reports; permission shortfalls are never
/// errors, they only degrade the composed output.
#[derive(Debug, PartialEq, Eq)]
pub enum BlockError {
    /// The creation payload failed to decode as an object with exactly the
    /// two string fields `name` and `content`.
    InputParse,
    /// No custom method of the given name exists for the given block type.
    MethodNotFound(String, String),
}

/// The optional authenticated identity making the current request, as an
/// abstract integer; absence is an anonymous caller.
pub open spec fn viewer_id(viewer: Option<i32>) -> Option<int> {
    match viewer {
        Some(u) => Some(u as int),
        None => None,
    }
}

/// The model of an optionally resolved block slot.
pub open spec fn slot_view(slot: Option<Block>) -> Option<BlockV> {
    match slot {
        Some(b) => Some(b@),
        None => None,
    }
}

} // verus!
