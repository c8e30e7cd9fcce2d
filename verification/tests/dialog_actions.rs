use sandstone::protocol::game::player::interface::dialog::{
    ChangePageAction, CustomAction, OpenUrlAction, RunCommandAction,
};
use sandstone::protocol_types::datatypes::nbt::NbtTag;

#[test]
fn open_url_action_is_a_compound_with_its_url() {
    let a = OpenUrlAction::new("https://example.com".to_string());
    let c = a.to_nbt();
    assert_eq!(c.get(&"url".to_string()), Some(&NbtTag::Str("https://example.com".to_string())));
    assert_eq!(OpenUrlAction::from_nbt(&c).unwrap(), a);
}

#[test]
fn change_page_action_reads_back() {
    let a = ChangePageAction::new(3);
    let c = a.to_nbt();
    assert_eq!(c.get(&"page".to_string()), Some(&NbtTag::Int(3)));
    assert_eq!(ChangePageAction::from_nbt(&c).unwrap(), a);
}

#[test]
fn custom_action_without_payload_leaves_it_out() {
    let a = CustomAction::new("my:event".to_string(), None);
    let c = a.to_nbt();
    assert_eq!(c.get(&"payload".to_string()), None);
    assert_eq!(CustomAction::from_nbt(&c).unwrap(), a);
    let b = CustomAction::new("my:event".to_string(), Some("x".to_string()));
    assert_eq!(CustomAction::from_nbt(&b.to_nbt()).unwrap(), b);
}

#[test]
fn a_missing_field_is_refused() {
    let c = OpenUrlAction::new("u".to_string()).to_nbt();
    assert!(RunCommandAction::from_nbt(&c).is_err());
}
