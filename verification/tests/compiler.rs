use presence_engine::fields::{ButtonSlot, CalendarDate, FieldModel, ImageSlot, TimestampMode};
use presence_engine::payload::{compile, PartyBlock};

fn base_fields() -> FieldModel {
    FieldModel {
        identity: String::new(),
        details: String::new(),
        state: String::new(),
        party_size: 0,
        party_capacity: 1,
        large_image: ImageSlot { key: String::new(), label: String::new() },
        small_image: ImageSlot { key: String::new(), label: String::new() },
        button1: ButtonSlot { label: String::new(), url: String::new() },
        button2: ButtonSlot { label: String::new(), url: String::new() },
        timestamp_mode: TimestampMode::NoTimestamp,
        custom_date: CalendarDate { year: 1970, month: 1, day: 1 },
    }
}

#[test]
fn minimal_fields_compile_to_minimal_payload() {
    let p = compile(&base_fields(), Some(42));
    assert_eq!(p.details, None);
    assert_eq!(p.state, None);
    assert_eq!(p.large_image_key, None);
    assert_eq!(p.large_image_label, None);
    assert_eq!(p.small_image_key, None);
    assert_eq!(p.small_image_label, None);
    assert!(p.buttons.is_empty());
    assert_eq!(p.party, None);
    assert_eq!(p.start, Some(42));
}

#[test]
fn details_and_state_kept_iff_nonempty() {
    let mut f = base_fields();
    f.details = "working".to_string();
    let p = compile(&f, None);
    assert_eq!(p.details, Some("working".to_string()));
    assert_eq!(p.state, None);
    assert_eq!(p.start, None);
}

#[test]
fn button_slot_needs_both_label_and_url() {
    let combos: [(&str, &str, bool); 4] = [
        ("", "", false),
        ("play", "", false),
        ("", "https://example.invalid", false),
        ("play", "https://example.invalid", true),
    ];
    for (label, url, expect_present) in combos {
        // first slot alone
        let mut f = base_fields();
        f.button1 = ButtonSlot { label: label.to_string(), url: url.to_string() };
        let p = compile(&f, None);
        assert_eq!(p.buttons.len(), if expect_present { 1 } else { 0 });
        // second slot alone
        let mut f = base_fields();
        f.button2 = ButtonSlot { label: label.to_string(), url: url.to_string() };
        let p = compile(&f, None);
        assert_eq!(p.buttons.len(), if expect_present { 1 } else { 0 });
    }
}

#[test]
fn buttons_keep_declaration_order() {
    let mut f = base_fields();
    f.button1 = ButtonSlot { label: "one".to_string(), url: "https://one.invalid".to_string() };
    f.button2 = ButtonSlot { label: "two".to_string(), url: "https://two.invalid".to_string() };
    let p = compile(&f, None);
    assert_eq!(p.buttons.len(), 2);
    assert_eq!(p.buttons[0].label, "one");
    assert_eq!(p.buttons[1].label, "two");
}

#[test]
fn second_button_alone_is_first_in_payload() {
    let mut f = base_fields();
    f.button2 = ButtonSlot { label: "two".to_string(), url: "https://two.invalid".to_string() };
    let p = compile(&f, None);
    assert_eq!(p.buttons.len(), 1);
    assert_eq!(p.buttons[0].label, "two");
}

#[test]
fn party_block_grid() {
    for size in [0u8, 1, 32] {
        for state in ["", "x"] {
            let mut f = base_fields();
            f.party_size = size;
            f.party_capacity = 32;
            f.state = state.to_string();
            let p = compile(&f, None);
            let expect_present = size != 0 && !state.is_empty();
            assert_eq!(p.party.is_some(), expect_present, "size={size} state={state:?}");
            if expect_present {
                assert_eq!(p.party, Some(PartyBlock { capacity: 32, size }));
            }
        }
    }
}

#[test]
fn party_carries_capacity_first_then_size() {
    let mut f = base_fields();
    f.state = "Playing".to_string();
    f.party_size = 2;
    f.party_capacity = 10;
    let p = compile(&f, None);
    let party = p.party.expect("party should be present");
    assert_eq!(party.capacity, 10);
    assert_eq!(party.size, 2);
}

#[test]
fn image_label_needs_included_key() {
    // label without key: both omitted
    let mut f = base_fields();
    f.large_image = ImageSlot { key: String::new(), label: "hover".to_string() };
    let p = compile(&f, None);
    assert_eq!(p.large_image_key, None);
    assert_eq!(p.large_image_label, None);

    // key without label: key alone
    let mut f = base_fields();
    f.small_image = ImageSlot { key: "icon".to_string(), label: String::new() };
    let p = compile(&f, None);
    assert_eq!(p.small_image_key, Some("icon".to_string()));
    assert_eq!(p.small_image_label, None);

    // both: both included
    let mut f = base_fields();
    f.large_image = ImageSlot { key: "icon".to_string(), label: "hover".to_string() };
    let p = compile(&f, None);
    assert_eq!(p.large_image_key, Some("icon".to_string()));
    assert_eq!(p.large_image_label, Some("hover".to_string()));
}

#[test]
fn scenario_playing_party_of_ten() {
    let mut f = base_fields();
    f.identity = "123".to_string();
    f.details = String::new();
    f.state = "Playing".to_string();
    f.party_size = 2;
    f.party_capacity = 10;
    let p = compile(&f, None);
    assert_eq!(p.state, Some("Playing".to_string()));
    assert_eq!(p.party, Some(PartyBlock { capacity: 10, size: 2 }));
    assert_eq!(p.details, None);
    assert!(p.buttons.is_empty());
}
