use text_block::block::TextBlock;
use text_block::display::{
    CardIcon, Component, EditableField, HeaderComponent, MenuComponent, PageDisplay,
};
use text_block::gate::{can_edit, can_view};
use text_block::model::Block;
use text_block::resolver::text_properties;
use text_block::store::Store;

fn loose_block(id: i64, owner_id: i32, color: Option<String>) -> Block {
    Block { id, block_type: "text".to_string(), owner_id, block_data: None, color }
}

fn created_store(owner: i32) -> (Store, Block) {
    let mut store = Store::new();
    let parent = TextBlock::handle_create(
        &mut store,
        "{\"name\":\"N\",\"content\":\"C\"}",
        owner,
    )
    .expect("creation of a well-formed payload succeeds");
    (store, parent)
}

#[test]
fn page_placeholders_without_edges() {
    let store = Store::new();
    let block = loose_block(1, 7, None);
    let page = TextBlock::handle_page_display(&store, &block, None).unwrap();
    assert!(matches!(page.header, HeaderComponent::Text(ref t) if t == "Untitled Block"));
    assert!(matches!(page.body, Component::Text(ref t) if t == "Empty Block"));
    assert!(page.menu.is_none());
}

#[test]
fn embed_placeholders_without_edges() {
    let store = Store::new();
    let block = loose_block(4, 7, None);
    let card = TextBlock::handle_embed_display(&store, &block, None);
    assert_eq!(card.header.title, "Untitled Block");
    assert_eq!(card.header.icon, CardIcon::Type);
    assert_eq!(card.header.block_id, 4);
    assert!(card.header.menu.is_none());
    assert!(matches!(card.content, Component::Text(ref t) if t == "Empty Block"));
    assert_eq!(card.color, None);
}

#[test]
fn dangling_edge_resolves_none() {
    let (mut store, parent) = created_store(7);
    // The name child holds identity 2; deleting it leaves its edge dangling.
    store.delete_block(2);
    let (name_slot, content_slot) = text_properties(&store, &parent);
    assert!(name_slot.is_none());
    assert!(content_slot.is_some());
    let page = TextBlock::handle_page_display(&store, &parent, None).unwrap();
    assert!(matches!(page.header, HeaderComponent::Text(ref t) if t == "Untitled Block"));
}

#[test]
fn content_read_only_for_non_owner() {
    let (store, parent) = created_store(1);
    let page = TextBlock::handle_page_display(&store, &parent, Some(2)).unwrap();
    assert!(matches!(page.header, HeaderComponent::Text(ref t) if t == "N"));
    assert!(matches!(page.body, Component::Text(ref t) if t == "C"));
    assert!(matches!(page.menu, Some(MenuComponent { block_id: 1, user_id: 2 })));
}

#[test]
fn content_read_only_for_anonymous() {
    let (store, parent) = created_store(1);
    let page = TextBlock::handle_page_display(&store, &parent, None).unwrap();
    assert!(matches!(page.body, Component::Text(ref t) if t == "C"));
    assert!(page.menu.is_none());
    let card = TextBlock::handle_embed_display(&store, &parent, None);
    assert!(matches!(card.content, Component::Text(ref t) if t == "C"));
    assert!(card.header.menu.is_none());
}

#[test]
fn owner_gets_editable_surfaces() {
    let (store, parent) = created_store(1);
    let page = TextBlock::handle_page_display(&store, &parent, Some(1)).unwrap();
    match page.header {
        HeaderComponent::Edit(ref f) => {
            assert_eq!(f.label, "Group Name");
            assert_eq!(f.value, "N");
            assert_eq!(f.block_id, 2);
            assert!(f.editable);
        },
        HeaderComponent::Text(_) => panic!("the owner edits the name block"),
    }
    match page.body {
        Component::Edit(ref f) => {
            assert_eq!(f.label, "Text...");
            assert_eq!(f.value, "C");
            assert_eq!(f.block_id, 3);
            assert!(f.editable);
        },
        Component::Text(_) => panic!("the owner edits the content block"),
    }
    assert!(matches!(page.menu, Some(MenuComponent { block_id: 1, user_id: 1 })));
}

#[test]
fn composition_idempotent() {
    let (store, parent) = created_store(1);
    let once: PageDisplay = TextBlock::handle_page_display(&store, &parent, Some(1)).unwrap();
    let twice: PageDisplay = TextBlock::handle_page_display(&store, &parent, Some(1)).unwrap();
    assert_eq!(once, twice);
    let card_once = TextBlock::handle_embed_display(&store, &parent, Some(1));
    let card_twice = TextBlock::handle_embed_display(&store, &parent, Some(1));
    assert_eq!(card_once, card_twice);
}

#[test]
fn first_edge_wins_on_duplicates() {
    let mut store = Store::new();
    let parent = store.insert_block("text", 1, None);
    let first = store.insert_block("data", 1, Some("A".to_string()));
    let second = store.insert_block("data", 1, Some("B".to_string()));
    store.insert_property(parent.id, "name", first.id);
    store.insert_property(parent.id, "name", second.id);
    let (name_slot, content_slot) = text_properties(&store, &parent);
    let name_block = name_slot.expect("the first edge resolves");
    assert_eq!(name_block.block_data.as_deref(), Some("A"));
    assert!(content_slot.is_none());
}

#[test]
fn empty_content_data_shows_placeholder() {
    let mut store = Store::new();
    let parent = store.insert_block("text", 1, None);
    let name_child = store.insert_block("data", 1, None);
    let content_child = store.insert_block("data", 1, Some(String::new()));
    store.insert_property(parent.id, "name", name_child.id);
    store.insert_property(parent.id, "content", content_child.id);
    let page = TextBlock::handle_page_display(&store, &parent, Some(9)).unwrap();
    // The name child carries no data: the placeholder stands in for it.
    assert!(matches!(page.header, HeaderComponent::Text(ref t) if t == "Untitled Block"));
    // The content child's data is empty: read-only viewers see the placeholder.
    assert!(matches!(page.body, Component::Text(ref t) if t == "No content"));
}

#[test]
fn embed_carries_color_and_id() {
    let store = Store::new();
    let block = loose_block(11, 3, Some("orange".to_string()));
    let card = TextBlock::handle_embed_display(&store, &block, Some(3));
    assert_eq!(card.color.as_deref(), Some("orange"));
    assert_eq!(card.header.block_id, 11);
    assert!(matches!(card.header.menu, Some(MenuComponent { block_id: 11, user_id: 3 })));
}

#[test]
fn richtext_closed_unless_owner() {
    let block = Block {
        id: 5,
        block_type: "data".to_string(),
        owner_id: 8,
        block_data: Some("words".to_string()),
        color: None,
    };
    let anonymous: EditableField = TextBlock::rightfully_editable_richtext(None, &block);
    assert!(!anonymous.editable);
    assert_eq!(anonymous.value, "words");
    let stranger = TextBlock::rightfully_editable_richtext(Some(9), &block);
    assert!(!stranger.editable);
    let owner = TextBlock::rightfully_editable_richtext(Some(8), &block);
    assert!(owner.editable);
    assert_eq!(owner.label, "Text...");
}

#[test]
fn gate_layers_edit_on_view() {
    let block = loose_block(2, 5, None);
    assert!(can_view(None, &block));
    assert!(!can_edit(None, &block));
    assert!(can_view(Some(4), &block));
    assert!(!can_edit(Some(4), &block));
    assert!(can_view(Some(5), &block));
    assert!(can_edit(Some(5), &block));
}
