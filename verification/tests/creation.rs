use text_block::block::TextBlock;
use text_block::display::CardIcon;
use text_block::model::BlockError;
use text_block::store::Store;

#[test]
fn create_allocates_graph() {
    let mut store = Store::new();
    let parent = TextBlock::handle_create(
        &mut store,
        "{\"name\":\"N\",\"content\":\"C\"}",
        7,
    )
    .unwrap();
    assert_eq!(parent.id, 1);
    assert_eq!(parent.block_type, "text");
    assert_eq!(parent.owner_id, 7);
    assert_eq!(parent.block_data, None);
    assert_eq!(store.block_count(), 3);
    assert_eq!(store.property_count(), 2);
    let blocks = store.blocks();
    assert_eq!(blocks[1].block_type, "data");
    assert_eq!(blocks[1].block_data.as_deref(), Some("N"));
    assert_eq!(blocks[2].block_data.as_deref(), Some("C"));
    let edges = store.properties();
    assert_eq!(edges[0].parent_id, 1);
    assert_eq!(edges[0].property_name, "name");
    assert_eq!(edges[0].value_id, 2);
    assert_eq!(edges[1].property_name, "content");
    assert_eq!(edges[1].value_id, 3);
}

#[test]
fn create_round_trip() {
    let mut store = Store::new();
    let parent = TextBlock::handle_create(
        &mut store,
        "{\"name\":\"N\",\"content\":\"C\"}",
        7,
    )
    .unwrap();
    let (name_slot, content_slot) = text_block::resolver::text_properties(&store, &parent);
    assert_eq!(name_slot.unwrap().block_data.as_deref(), Some("N"));
    assert_eq!(content_slot.unwrap().block_data.as_deref(), Some("C"));
}

#[test]
fn malformed_payload_creates_nothing() {
    let mut store = Store::new();
    let result = TextBlock::handle_create(&mut store, "{not json", 7);
    assert_eq!(result.unwrap_err(), BlockError::InputParse);
    assert_eq!(store.block_count(), 0);
    assert_eq!(store.property_count(), 0);
}

#[test]
fn payload_field_order_does_not_matter() {
    let mut store = Store::new();
    let parent = TextBlock::handle_create(
        &mut store,
        " { \"content\" : \"C\" , \"name\" : \"N\" } ",
        2,
    )
    .unwrap();
    let (name_slot, content_slot) = text_block::resolver::text_properties(&store, &parent);
    assert_eq!(name_slot.unwrap().block_data.as_deref(), Some("N"));
    assert_eq!(content_slot.unwrap().block_data.as_deref(), Some("C"));
}

#[test]
fn payload_with_extra_field_is_rejected() {
    let mut store = Store::new();
    let result = TextBlock::handle_create(
        &mut store,
        "{\"name\":\"N\",\"content\":\"C\",\"extra\":\"E\"}",
        2,
    );
    assert_eq!(result.unwrap_err(), BlockError::InputParse);
    assert_eq!(store.block_count(), 0);
}

#[test]
fn payload_with_missing_field_is_rejected() {
    let mut store = Store::new();
    let result = TextBlock::handle_create(&mut store, "{\"name\":\"N\"}", 2);
    assert_eq!(result.unwrap_err(), BlockError::InputParse);
}

#[test]
fn payload_with_non_string_value_is_rejected() {
    let mut store = Store::new();
    let result = TextBlock::handle_create(&mut store, "{\"name\":\"N\",\"content\":5}", 2);
    assert_eq!(result.unwrap_err(), BlockError::InputParse);
    let result = TextBlock::handle_create(&mut store, "[\"name\",\"content\"]", 2);
    assert_eq!(result.unwrap_err(), BlockError::InputParse);
}

#[test]
fn payload_escapes_are_decoded() {
    let mut store = Store::new();
    let parent = TextBlock::handle_create(
        &mut store,
        "{\"name\":\"a\\nb\",\"content\":\"q\\\"q\"}",
        2,
    )
    .unwrap();
    let (name_slot, content_slot) = text_block::resolver::text_properties(&store, &parent);
    assert_eq!(name_slot.unwrap().block_data.as_deref(), Some("a\nb"));
    assert_eq!(content_slot.unwrap().block_data.as_deref(), Some("q\"q"));
}

#[test]
fn creation_form_is_static() {
    let form = TextBlock::handle_create_display().unwrap();
    assert_eq!(form.heading, "New Text Block");
    assert_eq!(form.name_input.label, "Name");
    assert_eq!(form.name_input.name, "NAME");
    assert_eq!(form.content_input.label, "Text");
    assert_eq!(form.content_input.name, "CONTENT");
    assert_eq!(form.input_template, "{\"name\":$[NAME]$,\"content\":$[CONTENT]$}");
}

#[test]
fn template_substitution_yields_valid_payload() {
    let form = TextBlock::handle_create_display().unwrap();
    let payload = form
        .input_template
        .replace("$[NAME]$", "\"My block\"")
        .replace("$[CONTENT]$", "\"Some text\"");
    let mut store = Store::new();
    let parent = TextBlock::handle_create(&mut store, &payload, 4).unwrap();
    let (name_slot, content_slot) = text_block::resolver::text_properties(&store, &parent);
    assert_eq!(name_slot.unwrap().block_data.as_deref(), Some("My block"));
    assert_eq!(content_slot.unwrap().block_data.as_deref(), Some("Some text"));
}

#[test]
fn method_delegate_always_fails() {
    let store = Store::new();
    let result = TextBlock::method_delegate(&store, "anything".to_string(), 1, "");
    match result {
        Err(BlockError::MethodNotFound(method, block_type)) => {
            assert_eq!(method, "anything");
            assert_eq!(block_type, "text");
        },
        other => panic!("expected a method-not-found error, got {:?}", other),
    }
}

#[test]
fn type_identity() {
    assert_eq!(TextBlock::name(), "text");
    let info = TextBlock::info();
    assert_eq!(info.name, "text");
    assert_eq!(info.icon, CardIcon::Type);
    assert_eq!(info.desc, "Text blocks can have special formatting");
    let store = Store::new();
    let block = text_block::model::Block {
        id: 1,
        block_type: "text".to_string(),
        owner_id: 1,
        block_data: None,
        color: None,
    };
    assert_eq!(TextBlock::block_name(&store, &block).unwrap(), "Text Block");
}
