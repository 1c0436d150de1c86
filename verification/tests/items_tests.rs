use pam::items::{Item, ItemType, PamConv, RawItem};

#[test]
fn item_types_have_the_framework_numbers() {
    assert_eq!(ItemType::Service.id(), 1);
    assert_eq!(ItemType::User.id(), 2);
    assert_eq!(ItemType::Tty.id(), 3);
    assert_eq!(ItemType::RHost.id(), 4);
    assert_eq!(ItemType::Conv.id(), 5);
    assert_eq!(ItemType::AuthTok.id(), 6);
    assert_eq!(ItemType::OldAuthTok.id(), 7);
    assert_eq!(ItemType::RUser.id(), 8);
    assert_eq!(ItemType::UserPrompt.id(), 9);
    assert_eq!(ItemType::FailDelay.id(), 10);
    assert_eq!(ItemType::XDisplay.id(), 11);
    assert_eq!(ItemType::XAuthData.id(), 12);
    assert_eq!(ItemType::AuthTokType.id(), 13);
}

#[test]
fn items_know_their_type() {
    assert_eq!(Item::User(b"u".to_vec()).type_id(), ItemType::User);
    assert_eq!(Item::Service(b"s".to_vec()).type_id(), ItemType::Service);
    assert_eq!(Item::AuthTok(b"t".to_vec()).type_id(), ItemType::AuthTok);
    assert_eq!(Item::Conv(PamConv { callback: 1, appdata: 2 }).type_id(), ItemType::Conv);
}

#[test]
fn text_item_marshals_to_terminated_bytes() {
    let raw = Item::Tty(b"tty1".to_vec()).into_raw();
    assert_eq!(raw, RawItem::Text(b"tty1\0".to_vec()));
}

#[test]
fn conv_item_marshals_to_its_structure() {
    let conv = PamConv { callback: 0x1000, appdata: 0x2000 };
    assert_eq!(Item::Conv(conv).into_raw(), RawItem::Struct(conv));
}

#[test]
fn raw_text_becomes_the_item_of_the_asked_type() {
    let raw = RawItem::Text(b"example.org\0".to_vec());
    assert_eq!(Item::from_raw(ItemType::RHost, &raw), Item::RHost(b"example.org".to_vec()));
    assert_eq!(Item::from_raw(ItemType::RUser, &raw), Item::RUser(b"example.org".to_vec()));
}

#[test]
fn every_item_variant_round_trips_through_raw() {
    let items = vec![
        Item::Service(b"sshd".to_vec()),
        Item::User(b"alice".to_vec()),
        Item::Tty(b"pts/0".to_vec()),
        Item::RHost(b"host".to_vec()),
        Item::AuthTok(b"secret".to_vec()),
        Item::OldAuthTok(b"older".to_vec()),
        Item::RUser(b"bob".to_vec()),
        Item::UserPrompt(b"login: ".to_vec()),
        Item::Conv(PamConv { callback: 7, appdata: 9 }),
    ];
    for item in items {
        let t = item.type_id();
        let raw = item.clone().into_raw();
        assert_eq!(Item::from_raw(t, &raw), item);
    }
}

#[test]
fn item_with_embedded_terminator_does_not_marshal() {
    assert!(Item::User(b"alice".to_vec()).marshals());
    assert!(!Item::User(b"al\0ice".to_vec()).marshals());
    assert!(Item::Conv(PamConv { callback: 0, appdata: 0 }).marshals());
}
