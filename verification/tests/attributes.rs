use asset_rules::account::AccountId;
use asset_rules::error::{Error, OwnableError};
use asset_rules::metadata::{Attribute, Metadata};
use asset_rules::psp34_nft::{Psp34Nft, SENTINEL_ID};
use asset_rules::psp34_traits::{add_attribute_name, Manager};

fn user(byte: u8) -> AccountId {
    AccountId { bytes: [byte; 32] }
}

fn gallery() -> Psp34Nft {
    Psp34Nft::new(
        user(1),
        String::from("Gallery"),
        String::from("GAL"),
        String::from("https://example.org/"),
        1000,
        1,
    )
}

fn pair(name: &str, value: &str) -> (String, String) {
    (String::from(name), String::from(value))
}

fn texts(items: &[&str]) -> Vec<String> {
    items.iter().map(|s| String::from(*s)).collect()
}

fn empty_manager() -> Manager {
    Manager {
        last_token_id: 0,
        attribute_count: 0,
        attribute_names: Vec::new(),
        locked_tokens: Vec::new(),
        locked_token_count: 0,
        price_per_mint: 0,
        max_amount: 1,
        max_supply: 10,
    }
}

#[test]
fn attribute_round_trip() {
    let mut nft = gallery();
    assert_eq!(nft.set_multiple_attributes(user(1), 5, vec![pair("colour", "blue")]), Ok(()));
    assert_eq!(nft.get_attributes(5, texts(&["colour"])), texts(&["blue"]));
    assert!(nft.is_wf());
}

#[test]
fn attribute_round_trip_beyond_ascii() {
    let mut nft = gallery();
    let pairs = vec![pair("průměr", "žluťoučký 🐎 42")];
    let set = nft.set_multiple_attributes(user(1), 5, pairs);
    assert_eq!(set, Ok(()));
    assert_eq!(nft.get_attributes(5, texts(&["průměr"])), texts(&["žluťoučký 🐎 42"]));
    assert_eq!(nft.get_attribute_name(1), String::from("průměr"));
    assert_eq!(nft.manager.attribute_names[0], "průměr".as_bytes().to_vec());
}

#[test]
fn attributes_are_read_in_the_order_of_the_names() {
    let mut nft = gallery();
    let pairs = vec![pair("a", "1"), pair("b", "2"), pair("c", "")];
    assert_eq!(nft.set_multiple_attributes(user(1), 9, pairs), Ok(()));
    assert_eq!(
        nft.get_attributes(9, texts(&["c", "missing", "b", "a", "a"])),
        texts(&["", "", "2", "1", "1"])
    );
    assert_eq!(nft.get_attributes(8, texts(&["a"])), texts(&[""]));
    assert_eq!(nft.get_attributes(9, Vec::new()), Vec::<String>::new());
}

#[test]
fn later_value_replaces_the_earlier() {
    let mut nft = gallery();
    let pairs = vec![pair("a", "1"), pair("a", "2")];
    assert_eq!(nft.set_multiple_attributes(user(1), 9, pairs), Ok(()));
    assert_eq!(nft.get_attributes(9, texts(&["a"])), texts(&["2"]));
    assert_eq!(nft.set_multiple_attributes(user(1), 9, vec![pair("a", "3")]), Ok(()));
    assert_eq!(nft.get_attributes(9, texts(&["a"])), texts(&["3"]));
    assert_eq!(nft.get_attribute_count(), 1);
    assert_eq!(nft.metadata.attributes.len(), 4);
}

#[test]
fn name_is_registered_once() {
    let mut nft = gallery();
    assert_eq!(nft.set_multiple_attributes(user(1), 1, vec![pair("size", "L")]), Ok(()));
    assert_eq!(nft.get_attribute_count(), 1);
    assert_eq!(nft.set_multiple_attributes(user(1), 2, vec![pair("size", "M")]), Ok(()));
    assert_eq!(nft.get_attribute_count(), 1);
    assert_eq!(nft.set_multiple_attributes(user(1), 2, vec![pair("Size", "M")]), Ok(()));
    assert_eq!(nft.get_attribute_count(), 2);
    assert_eq!(nft.get_attribute_name(1), String::from("size"));
    assert_eq!(nft.get_attribute_name(2), String::from("Size"));
}

#[test]
fn names_are_indexed_from_one() {
    let mut nft = gallery();
    let pairs = vec![pair("x", "1"), pair("y", "2"), pair("x", "3"), pair("z", "4")];
    assert!(nft.has_room_for(&pairs));
    assert_eq!(nft.set_multiple_attributes(user(1), 1, pairs), Ok(()));
    assert_eq!(nft.get_attribute_count(), 3);
    assert_eq!(nft.get_attribute_name(0), String::new());
    assert_eq!(nft.get_attribute_name(1), String::from("x"));
    assert_eq!(nft.get_attribute_name(2), String::from("y"));
    assert_eq!(nft.get_attribute_name(3), String::from("z"));
    assert_eq!(nft.get_attribute_name(4), String::new());
    assert_eq!(nft.get_attribute_name(u32::MAX), String::new());
}

#[test]
fn add_attribute_name_skips_a_registered_name() {
    let mut manager = empty_manager();
    add_attribute_name(&mut manager, &b"one".to_vec());
    add_attribute_name(&mut manager, &b"two".to_vec());
    add_attribute_name(&mut manager, &b"one".to_vec());
    add_attribute_name(&mut manager, &Vec::new());
    add_attribute_name(&mut manager, &Vec::new());
    add_attribute_name(&mut manager, &vec![0xff]);
    assert_eq!(manager.attribute_count, 4);
    assert_eq!(
        manager.attribute_names,
        vec![b"one".to_vec(), b"two".to_vec(), Vec::new(), vec![0xff]]
    );
    assert!(manager.has_name(&b"two".to_vec()));
    assert!(!manager.has_name(&b"tw".to_vec()));
    assert!(manager.is_wf());
}

#[test]
fn attributes_are_for_the_owner_of_the_contract() {
    let mut nft = gallery();
    assert_eq!(
        nft.set_multiple_attributes(user(2), 5, vec![pair("colour", "blue")]),
        Err(Error::OwnableError(OwnableError::CallerIsNotOwner))
    );
    assert_eq!(nft.get_attributes(5, texts(&["colour"])), texts(&[""]));
    assert_eq!(nft.get_attribute_count(), 0);
    // the owner gate stands before the other checks
    assert_eq!(
        nft.set_multiple_attributes(user(2), SENTINEL_ID, Vec::new()),
        Err(Error::OwnableError(OwnableError::CallerIsNotOwner))
    );
}

#[test]
fn sentinel_id_takes_no_attributes() {
    let mut nft = gallery();
    assert_eq!(
        nft.set_multiple_attributes(user(1), SENTINEL_ID, vec![pair("baseURI", "x")]),
        Err(Error::InvalidInput)
    );
    assert_eq!(nft.set_multiple_attributes(user(1), 0, Vec::new()), Err(Error::InvalidInput));
    assert_eq!(nft.token_uri(1), Ok(String::from("https://example.org/1.json")));
    assert_eq!(nft.get_attribute_count(), 0);
}

#[test]
fn locked_token_keeps_its_attributes() {
    let mut nft = gallery();
    let holder = user(3);
    assert_eq!(nft.set_multiple_attributes(user(1), 4, vec![pair("colour", "blue")]), Ok(()));
    assert!(!nft.is_locked_nft(4));
    assert_eq!(nft.lock(holder, 4, holder), Ok(()));
    assert!(nft.is_locked_nft(4));
    assert_eq!(nft.get_locked_token_count(), 1);
    assert_eq!(
        nft.set_multiple_attributes(user(1), 4, vec![pair("colour", "red"), pair("new", "x")]),
        Err(Error::Custom(String::from("Token is locked")))
    );
    let mut locked = gallery();
    assert_eq!(locked.set_multiple_attributes(user(1), 4, vec![pair("colour", "blue")]), Ok(()));
    assert_eq!(locked.lock(holder, 4, holder), Ok(()));
    assert_eq!(nft, locked);
    assert_eq!(nft.get_attributes(4, texts(&["colour", "new"])), texts(&["blue", ""]));
    assert_eq!(nft.get_attribute_count(), 1);
    // other tokens are not touched by the lock
    assert_eq!(nft.set_multiple_attributes(user(1), 5, vec![pair("colour", "red")]), Ok(()));
    assert!(!nft.is_locked_nft(5));
    assert!(nft.is_wf());
}

#[test]
fn lock_is_for_the_owner_of_the_token() {
    let mut nft = gallery();
    assert_eq!(nft.lock(user(2), 4, user(3)), Err(Error::NotTokenOwner));
    assert_eq!(nft.lock(user(1), 4, user(3)), Err(Error::NotTokenOwner));
    assert!(!nft.is_locked_nft(4));
    assert_eq!(nft.get_locked_token_count(), 0);
}

#[test]
fn every_lock_is_counted() {
    let mut nft = gallery();
    assert_eq!(nft.lock(user(3), 4, user(3)), Ok(()));
    assert_eq!(nft.lock(user(3), 4, user(3)), Ok(()));
    assert_eq!(nft.lock(user(5), 6, user(5)), Ok(()));
    assert_eq!(nft.get_locked_token_count(), 3);
    assert_eq!(nft.manager.locked_tokens, vec![4, 6]);
    assert!(nft.is_locked_nft(4));
    assert!(nft.is_locked_nft(6));
    assert!(!nft.is_locked_nft(5));
}

#[test]
fn token_uri_joins_base_id_and_suffix() {
    let mut nft = gallery();
    assert_eq!(nft.token_uri(0), Ok(String::from("https://example.org/0.json")));
    assert_eq!(nft.token_uri(7), Ok(String::from("https://example.org/7.json")));
    assert_eq!(nft.token_uri(1234567890), Ok(String::from("https://example.org/1234567890.json")));
    assert_eq!(
        nft.token_uri(u64::MAX),
        Ok(String::from("https://example.org/18446744073709551615.json"))
    );
    assert_eq!(nft.set_base_uri(user(1), String::from("ar://ž/")), Ok(()));
    assert_eq!(nft.token_uri(10), Ok(String::from("ar://ž/10.json")));
    assert_eq!(nft.set_base_uri(user(1), String::new()), Ok(()));
    assert_eq!(nft.token_uri(10), Ok(String::from("10.json")));
}

#[test]
fn token_uri_needs_a_base_uri() {
    let nft = Psp34Nft { metadata: Metadata::new(), owner: user(1), manager: empty_manager() };
    assert_eq!(nft.token_uri(3), Err(Error::Custom(String::from("Base URI Not Set"))));
}

#[test]
fn base_uri_is_for_the_owner_of_the_contract() {
    let mut nft = gallery();
    assert_eq!(
        nft.set_base_uri(user(2), String::from("x")),
        Err(Error::OwnableError(OwnableError::CallerIsNotOwner))
    );
    assert_eq!(nft.token_uri(3), Ok(String::from("https://example.org/3.json")));
    assert_eq!(nft.get_attribute_count(), 0);
}

#[test]
fn store_keeps_one_value_for_each_key() {
    let mut store = Metadata::new();
    assert_eq!(store.get_attribute(1, &b"k".to_vec()), None);
    store.set_attribute(1, b"k".to_vec(), b"v1".to_vec());
    store.set_attribute(2, b"k".to_vec(), b"v2".to_vec());
    store.set_attribute(1, b"kk".to_vec(), vec![0xff, 0x00]);
    store.set_attribute(1, b"k".to_vec(), b"v3".to_vec());
    assert_eq!(store.get_attribute(1, &b"k".to_vec()), Some(b"v3".to_vec()));
    assert_eq!(store.get_attribute(2, &b"k".to_vec()), Some(b"v2".to_vec()));
    assert_eq!(store.get_attribute(1, &b"kk".to_vec()), Some(vec![0xff, 0x00]));
    assert_eq!(store.get_attribute(3, &b"k".to_vec()), None);
    assert_eq!(store.attributes.len(), 3);
    assert!(store.is_wf());
    assert!(!store.holds_text());
}

#[test]
fn malformed_states_are_told_apart() {
    let mut store = Metadata::new();
    store.attributes.push(Attribute { token_id: 1, name: b"k".to_vec(), value: b"a".to_vec() });
    store.attributes.push(Attribute { token_id: 1, name: b"j".to_vec(), value: b"b".to_vec() });
    assert!(store.is_wf());
    assert!(store.holds_text());
    store.attributes.push(Attribute { token_id: 1, name: b"k".to_vec(), value: b"c".to_vec() });
    assert!(!store.is_wf());

    let mut manager = empty_manager();
    assert!(manager.is_wf());
    manager.attribute_names.push(b"n".to_vec());
    assert!(!manager.is_wf());
    manager.attribute_count = 1;
    assert!(manager.is_wf());
    manager.attribute_names.push(b"n".to_vec());
    manager.attribute_count = 2;
    assert!(!manager.is_wf());
    manager.attribute_names[1] = vec![0xc3, 0x28];
    assert!(manager.is_wf());
    assert!(!manager.holds_text());
    let mut nft = gallery();
    nft.manager.attribute_names = vec![vec![0xc3, 0x28]];
    nft.manager.attribute_count = 1;
    assert!(!nft.is_wf());
    manager.attribute_names[1] = b"m".to_vec();
    assert!(manager.is_wf());
    assert!(manager.holds_text());
    manager.last_token_id = 11;
    assert!(!manager.is_wf());

    let mut nft = gallery();
    assert!(nft.is_wf());
    nft.metadata.set_attribute(3, b"raw".to_vec(), vec![0x80]);
    assert!(!nft.is_wf());
}

#[test]
fn default_manager_is_empty() {
    let manager = Manager::default();
    assert!(manager.is_wf());
    assert!(manager.holds_text());
    assert_eq!(manager.last_token_id, 0);
    assert_eq!(manager.attribute_count, 0);
    assert!(manager.attribute_names.is_empty());
    assert!(manager.locked_tokens.is_empty());
    assert_eq!(manager.locked_token_count, 0);
    assert_eq!(manager.price_per_mint, 0);
    assert_eq!(manager.max_amount, 0);
    assert_eq!(manager.max_supply, 0);
}

#[test]
fn registry_has_room_up_to_its_count() {
    let mut nft = gallery();
    nft.manager.attribute_count = u32::MAX - 1;
    // only the count is read here
    let one_new = vec![pair("a", "1"), pair("a", "2")];
    let two_new = vec![pair("a", "1"), pair("b", "2")];
    assert!(nft.has_room_for(&Vec::new()));
    assert!(nft.has_room_for(&one_new));
    assert!(!nft.has_room_for(&two_new));
}
