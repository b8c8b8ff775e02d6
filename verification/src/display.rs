use vstd::prelude::*;

use crate::gate::{can_edit, spec_can_edit};
use crate::model::{Block, BlockV, slot_view, viewer_id};

verus! {

// ---------------------------------------------------------------------------
// The display shapes this block type emits. They carry what the host's
// rendering engine needs as plain values; rendering itself is the host's
// work and out of scope here.
// ---------------------------------------------------------------------------

/// The icon shown in a card header; this block type always shows the icon
/// standing for its type tag.
#[derive(Debug, PartialEq, Eq, Clone, Copy)]
pub enum CardIcon {
    Type,
}

/// The navigation menu attached to a display, tied to the shown block and
/// the authenticated viewer it was built for.
#[derive(Debug, PartialEq, Eq)]
pub struct MenuComponent {
    pub block_id: i64,
    pub user_id: i32,
}

/// Mathematical model of a [`MenuComponent`].
#[verifier::ext_equal]
pub ghost struct MenuV {
    pub block_id: int,
    pub user_id: int,
}

impl View for MenuComponent {
    type V = MenuV;

    open spec fn view(&self) -> MenuV {
        MenuV { block_id: self.block_id as int, user_id: self.user_id as int }
    }
}

/// A masked edit surface over one block's raw data. Its editable flag
/// defaults to closed and is opened only by a successful permission check.
#[derive(Debug, PartialEq, Eq)]
pub struct EditableField {
    pub block_id: i64,
    pub label: String,
    pub value: String,
    pub editable: bool,
}

/// Mathematical model of an [`EditableField`].
#[verifier::ext_equal]
pub ghost struct EditableFieldV {
    pub block_id: int,
    pub label: Seq<char>,
    pub value: Seq<char>,
    pub editable: bool,
}

impl View for EditableField {
    type V = EditableFieldV;

    open spec fn view(&self) -> EditableFieldV {
        EditableFieldV {
            block_id: self.block_id as int,
            label: self.label@,
            value: self.value@,
            editable: self.editable,
        }
    }
}

/// A body component: read-only text, or an edit surface.
#[derive(Debug, PartialEq, Eq)]
pub enum Component {
    Text(String),
    Edit(EditableField),
}

/// Mathematical model of a [`Component`].
#[verifier::ext_equal]
pub ghost enum ComponentV {
    Text(Seq<char>),
    Edit(EditableFieldV),
}

impl View for Component {
    type V = ComponentV;

    open spec fn view(&self) -> ComponentV {
        match self {
            Component::Text(t) => ComponentV::Text(t@),
            Component::Edit(f) => ComponentV::Edit(f@),
        }
    }
}

/// Whether a composed component presents an editable surface.
pub open spec fn component_editable(c: ComponentV) -> bool {
    match c {
        ComponentV::Text(_) => false,
        ComponentV::Edit(f) => f.editable,
    }
}

/// A page header: the literal name text, or the editable name component.
#[derive(Debug, PartialEq, Eq)]
pub enum HeaderComponent {
    Text(String),
    Edit(EditableField),
}

/// Mathematical model of a [`HeaderComponent`].
#[verifier::ext_equal]
pub ghost enum HeaderV {
    Text(Seq<char>),
    Edit(EditableFieldV),
}

impl View for HeaderComponent {
    type V = HeaderV;

    open spec fn view(&self) -> HeaderV {
        match self {
            HeaderComponent::Text(t) => HeaderV::Text(t@),
            HeaderComponent::Edit(f) => HeaderV::Edit(f@),
        }
    }
}

/// The full-page display of a text block.
#[derive(Debug, PartialEq, Eq)]
pub struct PageDisplay {
    pub header: HeaderComponent,
    pub body: Component,
    pub menu: Option<MenuComponent>,
}

/// Mathematical model of a [`PageDisplay`].
#[verifier::ext_equal]
pub ghost struct PageDisplayV {
    pub header: HeaderV,
    pub body: ComponentV,
    pub menu: Option<MenuV>,
}

impl View for PageDisplay {
    type V = PageDisplayV;

    open spec fn view(&self) -> PageDisplayV {
        PageDisplayV {
            header: self.header@,
            body: self.body@,
            menu: match self.menu {
                Some(m) => Some(m@),
                None => None,
            },
        }
    }
}

/// The header of an embedded card: resolved name, type icon, the shown
/// block's identity for later reference, and a menu for authenticated
/// viewers only.
#[derive(Debug, PartialEq, Eq)]
pub struct CardHeader {
    pub title: String,
    pub icon: CardIcon,
    pub block_id: i64,
    pub menu: Option<MenuComponent>,
}

/// Mathematical model of a [`CardHeader`].
#[verifier::ext_equal]
pub ghost struct CardHeaderV {
    pub title: Seq<char>,
    pub icon: CardIcon,
    pub block_id: int,
    pub menu: Option<MenuV>,
}

impl View for CardHeader {
    type V = CardHeaderV;

    open spec fn view(&self) -> CardHeaderV {
        CardHeaderV {
            title: self.title@,
            icon: self.icon,
            block_id: self.block_id as int,
            menu: match self.menu {
                Some(m) => Some(m@),
                None => None,
            },
        }
    }
}

/// The embedded, compact card display of a text block.
#[derive(Debug, PartialEq, Eq)]
pub struct CardComponent {
    pub header: CardHeader,
    pub content: Component,
    pub color: Option<String>,
}

/// Mathematical model of a [`CardComponent`].
#[verifier::ext_equal]
pub ghost struct CardComponentV {
    pub header: CardHeaderV,
    pub content: ComponentV,
    pub color: Option<Seq<char>>,
}

impl View for CardComponent {
    type V = CardComponentV;

    open spec fn view(&self) -> CardComponentV {
        CardComponentV {
            header: self.header@,
            content: self.content@,
            color: match self.color {
                Some(c) => Some(c@),
                None => None,
            },
        }
    }
}

/// One labeled input field of the creation form.
#[derive(Debug, PartialEq, Eq)]
pub struct InputField {
    pub label: String,
    pub name: String,
}

/// Mathematical model of an [`InputField`].
#[verifier::ext_equal]
pub ghost struct InputFieldV {
    pub label: Seq<char>,
    pub name: Seq<char>,
}

impl View for InputField {
    type V = InputFieldV;

    open spec fn view(&self) -> InputFieldV {
        InputFieldV { label: self.label@, name: self.name@ }
    }
}

/// The static creation form: a heading, the two labeled inputs, and the
/// value-substitution template the caller fills in before submitting.
#[derive(Debug, PartialEq, Eq)]
pub struct CreationForm {
    pub heading: String,
    pub name_input: InputField,
    pub content_input: InputField,
    pub input_template: String,
}

/// Mathematical model of a [`CreationForm`].
#[verifier::ext_equal]
pub ghost struct CreationFormV {
    pub heading: Seq<char>,
    pub name_input: InputFieldV,
    pub content_input: InputFieldV,
    pub input_template: Seq<char>,
}

impl View for CreationForm {
    type V = CreationFormV;

    open spec fn view(&self) -> CreationFormV {
        CreationFormV {
            heading: self.heading@,
            name_input: self.name_input@,
            content_input: self.content_input@,
            input_template: self.input_template@,
        }
    }
}

// ---------------------------------------------------------------------------
// What each composed piece is, as a function of the resolved slots and the
// gate decisions.
// ---------------------------------------------------------------------------

/// A block's raw data, or the empty string when it carries none: the value
/// an edit surface starts from.
pub open spec fn data_or_empty(b: BlockV) -> Seq<char> {
    match b.block_data {
        Some(d) => d,
        None => Seq::<char>::empty(),
    }
}

/// The name text a display shows: the resolved name block's data, or the
/// literal placeholder when the slot is empty or carries no data.
pub open spec fn spec_name_text(slot: Option<BlockV>) -> Seq<char> {
    match slot {
        Some(b) => match b.block_data {
            Some(d) => d,
            None => "Untitled Block"@,
        },
        None => "Untitled Block"@,
    }
}

/// An edit surface over `b` with the given label and editability.
pub open spec fn spec_editable_field(b: BlockV, label: Seq<char>, editable: bool) -> EditableFieldV {
    EditableFieldV { block_id: b.id, label: label, value: data_or_empty(b), editable: editable }
}

/// The masked edit surface over one block's data: closed by default, opened
/// exactly by a successful edit check for that block.
pub open spec fn spec_editable_richtext(viewer: Option<int>, b: BlockV) -> EditableFieldV {
    spec_editable_field(b, "Text..."@, spec_can_edit(viewer, b))
}

/// The read-only text shown for a content block the viewer may not edit:
/// its raw data, or the literal placeholder when the data is empty or
/// absent.
pub open spec fn spec_content_text(b: BlockV) -> Seq<char> {
    match b.block_data {
        Some(d) => if d.len() == 0 {
            "No content"@
        } else {
            d
        },
        None => "No content"@,
    }
}

/// The content slot of a display: a placeholder when the slot is empty, an
/// edit surface when the viewer's edit check on the content block succeeds,
/// read-only text otherwise.
pub open spec fn spec_content_component(slot: Option<BlockV>, viewer: Option<int>) -> ComponentV {
    match slot {
        None => ComponentV::Text("Empty Block"@),
        Some(b) => if spec_can_edit(viewer, b) {
            ComponentV::Edit(spec_editable_richtext(viewer, b))
        } else {
            ComponentV::Text(spec_content_text(b))
        },
    }
}

/// The page header: the editable name field when the viewer's edit check on
/// the name block succeeds, otherwise the plain name text.
pub open spec fn spec_page_header(slot: Option<BlockV>, viewer: Option<int>) -> HeaderV {
    match slot {
        Some(b) => if spec_can_edit(viewer, b) {
            HeaderV::Edit(spec_editable_field(b, "Group Name"@, true))
        } else {
            HeaderV::Text(spec_name_text(slot))
        },
        None => HeaderV::Text("Untitled Block"@),
    }
}

/// The menu attached to a display: present exactly for authenticated
/// viewers, tied to the shown block and the viewer.
pub open spec fn spec_menu(block: BlockV, viewer: Option<int>) -> Option<MenuV> {
    match viewer {
        Some(user) => Some(MenuV { block_id: block.id, user_id: user }),
        None => None,
    }
}

/// The full-page composition from resolved slots and gate decisions.
pub open spec fn spec_compose_page(
    block: BlockV,
    name_slot: Option<BlockV>,
    content_slot: Option<BlockV>,
    viewer: Option<int>,
) -> PageDisplayV {
    PageDisplayV {
        header: spec_page_header(name_slot, viewer),
        body: spec_content_component(content_slot, viewer),
        menu: spec_menu(block, viewer),
    }
}

/// The embed/card composition from resolved slots and gate decisions.
pub open spec fn spec_compose_embed(
    block: BlockV,
    name_slot: Option<BlockV>,
    content_slot: Option<BlockV>,
    viewer: Option<int>,
) -> CardComponentV {
    CardComponentV {
        header: CardHeaderV {
            title: spec_name_text(name_slot),
            icon: CardIcon::Type,
            block_id: block.id,
            menu: spec_menu(block, viewer),
        },
        content: spec_content_component(content_slot, viewer),
        color: block.color,
    }
}

/// The static creation form, independent of any block or viewer state.
pub open spec fn spec_create_form() -> CreationFormV {
    CreationFormV {
        heading: "New Text Block"@,
        name_input: InputFieldV { label: "Name"@, name: "NAME"@ },
        content_input: InputFieldV { label: "Text"@, name: "CONTENT"@ },
        input_template: "{\"name\":$[NAME]$,\"content\":$[CONTENT]$}"@,
    }
}

// ---------------------------------------------------------------------------
// The composer.
// ---------------------------------------------------------------------------

/// Builds the masked edit surface over one block's data. The surface starts
/// closed; only the successful edit check for this viewer and block opens
/// it, never a default.
pub fn editable_richtext(viewer: Option<i32>, block: &Block) -> (c: EditableField)
    ensures
        c@ == spec_editable_richtext(viewer_id(viewer), block@),
{
    let value = match &block.block_data {
        Some(d) => d.clone(),
        None => String::new(),
    };
    let mut component = EditableField {
        block_id: block.id,
        label: "Text...".to_owned(),
        value,
        editable: false,
    };
    if let Some(_user) = viewer {
        if can_edit(viewer, block) {
            component.editable = true;
        }
    }
    component
}

/// The name text for a resolved name slot.
pub fn name_text(slot: &Option<Block>) -> (r: String)
    ensures
        r@ == spec_name_text(slot_view_ref(slot)),
{
    match slot {
        Some(b) => match &b.block_data {
            Some(d) => d.clone(),
            None => "Untitled Block".to_owned(),
        },
        None => "Untitled Block".to_owned(),
    }
}

/// The model of a borrowed resolved slot.
pub open spec fn slot_view_ref(slot: &Option<Block>) -> Option<BlockV> {
    slot_view(*slot)
}

/// The content component for a resolved content slot and viewer.
pub fn content_component(slot: &Option<Block>, viewer: Option<i32>) -> (c: Component)
    ensures
        c@ == spec_content_component(slot_view_ref(slot), viewer_id(viewer)),
{
    match slot {
        None => Component::Text("Empty Block".to_owned()),
        Some(b) => {
            let field = editable_richtext(viewer, b);
            if field.editable {
                Component::Edit(field)
            } else {
                match &b.block_data {
                    Some(d) => if d.as_str().is_empty() {
                        Component::Text("No content".to_owned())
                    } else {
                        Component::Text(d.clone())
                    },
                    None => Component::Text("No content".to_owned()),
                }
            }
        },
    }
}

/// The page header for a resolved name slot and viewer.
pub fn page_header(slot: &Option<Block>, viewer: Option<i32>) -> (h: HeaderComponent)
    ensures
        h@ == spec_page_header(slot_view_ref(slot), viewer_id(viewer)),
{
    match slot {
        Some(b) => {
            if can_edit(viewer, b) {
                let value = match &b.block_data {
                    Some(d) => d.clone(),
                    None => String::new(),
                };
                HeaderComponent::Edit(
                    EditableField {
                        block_id: b.id,
                        label: "Group Name".to_owned(),
                        value,
                        editable: true,
                    },
                )
            } else {
                HeaderComponent::Text(name_text(slot))
            }
        },
        None => HeaderComponent::Text("Untitled Block".to_owned()),
    }
}

/// The menu for the shown block: attached only when a viewer identity is
/// present.
pub fn menu_for(block: &Block, viewer: Option<i32>) -> (m: Option<MenuComponent>)
    ensures
        (match m {
            Some(x) => Some(x@),
            None => None,
        }) == spec_menu(block@, viewer_id(viewer)),
{
    match viewer {
        Some(user) => Some(MenuComponent { block_id: block.id, user_id: user }),
        None => None,
    }
}

/// Composes the full-page view from the shown block, its resolved name and
/// content slots, and the viewer.
pub fn compose_page(
    block: &Block,
    name_slot: &Option<Block>,
    content_slot: &Option<Block>,
    viewer: Option<i32>,
) -> (d: PageDisplay)
    ensures
        d@ == spec_compose_page(
            block@,
            slot_view_ref(name_slot),
            slot_view_ref(content_slot),
            viewer_id(viewer),
        ),
{
    PageDisplay {
        header: page_header(name_slot, viewer),
        body: content_component(content_slot, viewer),
        menu: menu_for(block, viewer),
    }
}

/// Composes the embed/card view from the shown block, its resolved name and
/// content slots, and the viewer.
pub fn compose_embed(
    block: &Block,
    name_slot: &Option<Block>,
    content_slot: &Option<Block>,
    viewer: Option<i32>,
) -> (c: CardComponent)
    ensures
        c@ == spec_compose_embed(
            block@,
            slot_view_ref(name_slot),
            slot_view_ref(content_slot),
            viewer_id(viewer),
        ),
{
    CardComponent {
        header: CardHeader {
            title: name_text(name_slot),
            icon: CardIcon::Type,
            block_id: block.id,
            menu: menu_for(block, viewer),
        },
        content: content_component(content_slot, viewer),
        color: match &block.color {
            Some(c) => Some(c.clone()),
            None => None,
        },
    }
}

/// Composes the static creation form: a heading, the `NAME` and `CONTENT`
/// inputs, and the substitution template whose `$[NAME]$` and `$[CONTENT]$`
/// markers the caller replaces with quoted, escaped values to obtain the
/// creation payload.
pub fn compose_create_form() -> (f: CreationForm)
    ensures
        f@ == spec_create_form(),
{
    CreationForm {
        heading: "New Text Block".to_owned(),
        name_input: InputField { label: "Name".to_owned(), name: "NAME".to_owned() },
        content_input: InputField { label: "Text".to_owned(), name: "CONTENT".to_owned() },
        input_template: "{\"name\":$[NAME]$,\"content\":$[CONTENT]$}".to_owned(),
    }
}

} // verus!
