use asset_rules::account::AccountId;
use asset_rules::error::{Error, OwnableError, PSP34Error};
use asset_rules::psp34_nft::{Approval, MintRun, Psp34Nft, Transfer, SENTINEL_ID};
use asset_rules::psp34_traits::{only_token_owner, InternalTraits};

fn who(byte: u8) -> AccountId {
    AccountId { bytes: [byte; 32] }
}

fn collection(max_supply: u64, price: u128) -> Psp34Nft {
    Psp34Nft::new(
        who(1),
        String::from("Art"),
        String::from("ART"),
        String::from("ipfs://base/"),
        max_supply,
        price,
    )
}

fn custom(text: &str) -> Error {
    Error::Custom(String::from(text))
}

/// Runs a mint to its end against a ledger that mints every unit but the one
/// with id `refused`, and gives back the events and the result.
fn drive(
    nft: &mut Psp34Nft,
    caller: AccountId,
    value: u128,
    amount: u64,
    refused: u64,
) -> (Vec<Transfer>, Result<(), Error>) {
    let mut events = Vec::new();
    let mut run = match nft.mint(caller, value, amount) {
        Ok(run) => run,
        Err(e) => return (events, Err(e)),
    };
    while let Some(id) = run.next() {
        assert!(nft.can_continue(&run));
        let outcome = if id == refused { Err(PSP34Error::TokenExists) } else { Ok(()) };
        match nft.mint_unit(&mut run, outcome) {
            Ok(event) => {
                assert_eq!(event.id, id);
                events.push(event)
            }
            Err(e) => return (events, Err(e)),
        }
    }
    assert!(!nft.can_continue(&run));
    (events, Ok(()))
}

#[test]
fn new_collection() {
    let nft = collection(77, 5);
    assert!(nft.is_wf());
    assert_eq!(nft.get_owner(), who(1));
    assert_eq!(nft.get_last_token_id(), 0);
    assert_eq!(nft.max_supply(), 77);
    assert_eq!(nft.price(), 5);
    assert_eq!(nft.get_attribute_count(), 0);
    assert_eq!(nft.get_locked_token_count(), 0);
    assert_eq!(
        nft.get_attributes(
            SENTINEL_ID,
            vec![String::from("name"), String::from("symbol"), String::from("baseURI")]
        ),
        vec![String::from("Art"), String::from("ART"), String::from("ipfs://base/")]
    );
    let mut nft = nft;
    assert_eq!(nft.get_max_mint_amount(), 1);
}

#[test]
fn supply_scenario() {
    let owner = who(1);
    let buyer = who(2);
    let mut nft = collection(5, 10);
    assert_eq!(nft.set_max_mint_amount(owner, 4), Ok(()));
    let (events, result) = drive(&mut nft, buyer, 40, 4, 0);
    assert_eq!(result, Ok(()));
    assert_eq!(events.len(), 4);
    assert_eq!(nft.get_last_token_id(), 4);

    let (events, result) = drive(&mut nft, buyer, 20, 2, 0);
    assert_eq!(result, Err(custom("Collection Is Full")));
    assert!(events.is_empty());
    assert_eq!(nft.get_last_token_id(), 4);

    let (events, result) = drive(&mut nft, buyer, 10, 1, 0);
    assert_eq!(result, Ok(()));
    assert_eq!(events, vec![Transfer { from: None, to: Some(buyer), id: 5 }]);
    assert_eq!(nft.get_last_token_id(), 5);

    let (events, result) = drive(&mut nft, buyer, 10, 1, 0);
    assert_eq!(result, Err(custom("Collection Is Full")));
    assert!(events.is_empty());
    assert_eq!(nft.get_last_token_id(), 5);
    assert!(nft.is_wf());
}

#[test]
fn mint_of_nothing_is_refused() {
    let mut nft = collection(100, 10);
    assert_eq!(nft.mint(who(2), 0, 0), Err(custom("Cannot Mint Zero Tokens")));
    assert_eq!(nft.check_amount(0), Err(custom("Cannot Mint Zero Tokens")));
    let (events, result) = drive(&mut nft, who(2), 0, 0, 0);
    assert_eq!(result, Err(custom("Cannot Mint Zero Tokens")));
    assert!(events.is_empty());
    assert_eq!(nft.get_last_token_id(), 0);
    assert_eq!(nft, collection(100, 10));
}

#[test]
fn mint_of_too_many_is_refused() {
    let mut nft = collection(100, 10);
    assert_eq!(nft.mint(who(2), 20, 2), Err(custom("Too Many Tokens To Mint")));
    assert_eq!(nft.set_max_mint_amount(who(1), 3), Ok(()));
    assert_eq!(nft.get_max_mint_amount(), 3);
    assert!(nft.mint(who(2), 30, 3).is_ok());
    assert_eq!(nft.mint(who(2), 40, 4), Err(custom("Too Many Tokens To Mint")));
    assert_eq!(nft.check_amount(4), Err(custom("Too Many Tokens To Mint")));
    assert_eq!(nft.mint(who(2), 0, u64::MAX), Err(custom("Too Many Tokens To Mint")));
    let (events, result) = drive(&mut nft, who(2), 40, 4, 0);
    assert_eq!(result, Err(custom("Too Many Tokens To Mint")));
    assert!(events.is_empty());
    let mut before = collection(100, 10);
    before.manager.max_amount = 3;
    assert_eq!(nft, before);
    assert_eq!(nft.get_last_token_id(), 0);
}

#[test]
fn mint_beyond_the_supply_is_refused() {
    let mut nft = collection(3, 1);
    assert_eq!(nft.set_max_mint_amount(who(1), u64::MAX), Ok(()));
    assert_eq!(nft.check_amount(3), Ok(()));
    assert_eq!(nft.check_amount(4), Err(custom("Collection Is Full")));
    // the sum leaves the 64-bit integers
    nft.manager.last_token_id = 2;
    assert_eq!(nft.check_amount(u64::MAX), Err(custom("Collection Is Full")));
    assert_eq!(nft.mint(who(2), 0, u64::MAX), Err(custom("Collection Is Full")));
    assert_eq!(nft.check_amount(1), Ok(()));
    assert_eq!(nft.check_amount(2), Err(custom("Collection Is Full")));
    let (events, result) = drive(&mut nft, who(2), 2, 2, 0);
    assert_eq!(result, Err(custom("Collection Is Full")));
    assert!(events.is_empty());
    let mut before = collection(3, 1);
    before.manager.max_amount = u64::MAX;
    before.manager.last_token_id = 2;
    assert_eq!(nft, before);
    assert_eq!(nft.get_last_token_id(), 2);
}

#[test]
fn mint_wants_the_exact_price() {
    let mut nft = collection(100, 7);
    assert_eq!(nft.set_max_mint_amount(who(1), 10), Ok(()));
    assert_eq!(nft.check_value(21, 3), Ok(()));
    assert_eq!(nft.check_value(20, 3), Err(custom("Bad Mint Value")));
    assert_eq!(nft.check_value(22, 3), Err(custom("Bad Mint Value")));
    assert_eq!(nft.check_value(0, 0), Ok(()));
    assert_eq!(nft.mint(who(2), 20, 3), Err(custom("Bad Mint Value")));
    assert_eq!(nft.mint(who(2), 22, 3), Err(custom("Bad Mint Value")));
    assert_eq!(
        nft.mint(who(2), 21, 3),
        Ok(MintRun { to: who(2), end_id: 3, remaining: 3 })
    );
    // the amount is checked before the payment
    assert_eq!(nft.mint(who(2), 1, 11), Err(custom("Too Many Tokens To Mint")));
    assert_eq!(nft.get_last_token_id(), 0);
}

#[test]
fn price_that_leaves_the_integers_is_never_paid() {
    let mut nft = collection(100, u128::MAX);
    assert_eq!(nft.set_max_mint_amount(who(1), 10), Ok(()));
    assert_eq!(nft.check_value(u128::MAX, 1), Ok(()));
    assert_eq!(nft.check_value(u128::MAX, 2), Err(custom("Bad Mint Value")));
    assert_eq!(nft.check_value(u128::MAX.wrapping_mul(2), 2), Err(custom("Bad Mint Value")));
    assert_eq!(nft.check_value(0, 2), Err(custom("Bad Mint Value")));
}

#[test]
fn mint_gives_sequential_ids_in_ascending_order() {
    let buyer = who(4);
    let mut nft = collection(100, 3);
    assert_eq!(nft.set_max_mint_amount(who(1), 10), Ok(()));
    let (events, result) = drive(&mut nft, buyer, 9, 3, 0);
    assert_eq!(result, Ok(()));
    assert_eq!(
        events,
        vec![
            Transfer { from: None, to: Some(buyer), id: 1 },
            Transfer { from: None, to: Some(buyer), id: 2 },
            Transfer { from: None, to: Some(buyer), id: 3 },
        ]
    );
    assert_eq!(nft.get_last_token_id(), 3);
    let (events, result) = drive(&mut nft, who(5), 6, 2, 0);
    assert_eq!(result, Ok(()));
    assert_eq!(
        events,
        vec![
            Transfer { from: None, to: Some(who(5)), id: 4 },
            Transfer { from: None, to: Some(who(5)), id: 5 },
        ]
    );
    assert_eq!(nft.get_last_token_id(), 5);
}

#[test]
fn failed_unit_ends_the_run_and_keeps_what_was_minted() {
    let buyer = who(4);
    let mut nft = collection(100, 3);
    assert_eq!(nft.set_max_mint_amount(who(1), 10), Ok(()));
    let (events, result) = drive(&mut nft, buyer, 15, 5, 3);
    assert_eq!(result, Err(custom("Cannot mint")));
    assert_eq!(
        events,
        vec![
            Transfer { from: None, to: Some(buyer), id: 1 },
            Transfer { from: None, to: Some(buyer), id: 2 },
        ]
    );
    assert_eq!(nft.get_last_token_id(), 2);
    assert!(nft.is_wf());
}

#[test]
fn run_steps() {
    let mut nft = collection(u64::MAX, 1);
    nft.manager.last_token_id = u64::MAX - 2;
    nft.manager.max_amount = 2;
    let mut run = nft.mint(who(2), 2, 2).unwrap();
    assert_eq!(run, MintRun { to: who(2), end_id: u64::MAX, remaining: 2 });
    assert_eq!(run.next(), Some(u64::MAX - 1));
    assert_eq!(
        nft.mint_unit(&mut run, Ok(())),
        Ok(Transfer { from: None, to: Some(who(2)), id: u64::MAX - 1 })
    );
    assert_eq!(run.next(), Some(u64::MAX));
    assert_eq!(
        nft.mint_unit(&mut run, Ok(())),
        Ok(Transfer { from: None, to: Some(who(2)), id: u64::MAX })
    );
    assert_eq!(run.next(), None);
    assert_eq!(run.remaining, 0);
    assert_eq!(nft.get_last_token_id(), u64::MAX);
    assert!(!nft.can_continue(&run));
    assert_eq!(nft.mint(who(2), 1, 1), Err(custom("Collection Is Full")));
}

#[test]
fn run_of_another_state_does_not_continue() {
    let mut nft = collection(10, 1);
    nft.manager.max_amount = 5;
    let run = nft.mint(who(2), 3, 3).unwrap();
    assert!(nft.can_continue(&run));
    nft.manager.last_token_id = 1;
    assert!(!nft.can_continue(&run));
    assert!(!nft.can_continue(&MintRun { to: who(2), end_id: 11, remaining: 10 }));
    assert!(!nft.can_continue(&MintRun { to: who(2), end_id: 1, remaining: 0 }));
    assert!(!nft.can_continue(&MintRun { to: who(2), end_id: 1, remaining: 2 }));
    assert_eq!(MintRun { to: who(2), end_id: 1, remaining: 2 }.next(), None);
}

#[test]
fn burn_is_for_the_owner_of_the_token_or_an_approved_caller() {
    let nft = collection(10, 1);
    let holder = who(2);
    let other = who(3);
    let burned = Ok(Transfer { from: Some(holder), to: None, id: 7 });
    assert_eq!(nft.burn(holder, holder, 7, holder, false), burned);
    assert_eq!(nft.burn(other, holder, 7, holder, true), burned);
    assert_eq!(
        nft.burn(other, holder, 7, holder, false),
        Err(PSP34Error::Custom(b"caller is not token owner or approved".to_vec()))
    );
    assert_eq!(
        nft.burn(other, other, 7, holder, true),
        Err(PSP34Error::Custom(b"not token owner".to_vec()))
    );
    assert_eq!(
        nft.burn(holder, other, 7, holder, false),
        Err(PSP34Error::Custom(b"not token owner".to_vec()))
    );
}

#[test]
fn token_owner_gate() {
    assert_eq!(only_token_owner(who(2), who(2)), Ok(()));
    assert_eq!(only_token_owner(who(2), who(3)), Err(Error::NotTokenOwner));
}

#[test]
fn token_exists_where_it_has_an_owner() {
    let nft = collection(10, 1);
    assert_eq!(nft.token_exists(Some(who(2))), Ok(()));
    assert_eq!(nft.token_exists(None), Err(Error::BidNotExist));
}

#[test]
fn owner_gate_of_the_collection() {
    let mut nft = collection(10, 1);
    let not_owner = Err(Error::OwnableError(OwnableError::CallerIsNotOwner));
    assert_eq!(nft.only_owner(who(1)), Ok(()));
    assert_eq!(nft.only_owner(who(2)), not_owner);
    assert_eq!(nft.set_max_mint_amount(who(2), 9), not_owner);
    assert_eq!(nft.get_max_mint_amount(), 1);
}

#[test]
fn mint_changes_the_last_id_only() {
    let mut nft = collection(10, 2);
    nft.manager.max_amount = 3;
    let mut expected = collection(10, 2);
    expected.manager.max_amount = 3;
    let (events, result) = drive(&mut nft, who(2), 6, 3, 0);
    assert_eq!(result, Ok(()));
    assert_eq!(events.len(), 3);
    expected.manager.last_token_id = 3;
    assert_eq!(nft, expected);
}

#[test]
fn approval_event_holds_its_fields() {
    let event = Approval { from: who(1), to: who(2), id: Some(3), approved: true };
    assert_eq!(event, Approval { from: who(1), to: who(2), id: Some(3), approved: true });
    assert_ne!(event, Approval { from: who(1), to: who(2), id: None, approved: true });
}
