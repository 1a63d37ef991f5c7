//! The collection contract: its state, its construction, and the decisions of
//! minting and burning.

use vstd::prelude::*;
use vstd::string::*;
use vstd::utf8::{encode_utf8, encode_utf8_valid_utf8};
use crate::account::{AccountId, Balance};
use crate::error::{Error, PSP34Error};
use crate::metadata::Metadata;
use crate::psp34_traits::{InternalTraits, Manager};
use crate::text::text_bytes;

verus! {

/// The id under which the attributes of the collection itself are stored. It
/// is never the id of a token: the first token minted has id 1.
pub const SENTINEL_ID: u64 = 0;

/// The event of a token changing hands; `from` is `None` when it is minted,
/// `to` is `None` when it is burned.
#[derive(Clone, Copy, Debug, PartialEq, Eq)]
pub struct Transfer {
    pub from: Option<AccountId>,
    pub to: Option<AccountId>,
    pub id: u64,
}

/// The event of an approval being given or withdrawn, for one token or, with
/// `id` being `None`, for all tokens of `from`.
#[derive(Clone, Copy, Debug, PartialEq, Eq)]
pub struct Approval {
    pub from: AccountId,
    pub to: AccountId,
    pub id: Option<u64>,
    pub approved: bool,
}

/// The state that the rules of a collection keep.
#[derive(Debug, PartialEq, Eq)]
pub struct Psp34Nft {
    /// The attribute values of the tokens and of the collection.
    pub metadata: Metadata,
    /// The owner of the contract.
    pub owner: AccountId,
    /// Mint settings, attribute names and locks.
    pub manager: Manager,
}

/// The name of the attribute that holds the collection's name.
pub open spec fn name_key() -> Seq<u8> {
    encode_utf8("name"@)
}

/// The name of the attribute that holds the collection's symbol.
pub open spec fn symbol_key() -> Seq<u8> {
    encode_utf8("symbol"@)
}

/// The name of the attribute that holds the prefix of every token's URI.
pub open spec fn base_uri_key() -> Seq<u8> {
    encode_utf8("baseURI"@)
}

/// A mint request that passed the checks, with the units that are still to be
/// minted: the `remaining` ids that end with `end_id`, in ascending order, for
/// `to`.
#[derive(Clone, Copy, Debug, PartialEq, Eq)]
pub struct MintRun {
    pub to: AccountId,
    pub end_id: u64,
    pub remaining: u64,
}

impl MintRun {
    /// The id of the next unit, where a unit is left.
    pub open spec fn next_id(self) -> Option<u64> {
        if 0 < self.remaining <= self.end_id {
            Some((self.end_id - self.remaining + 1) as u64)
        } else {
            None
        }
    }

    /// The event that the next unit gives rise to once it is minted.
    pub open spec fn event(self) -> Transfer
        recommends
            self.next_id() is Some,
    {
        Transfer { from: None, to: Some(self.to), id: self.next_id()->0 }
    }

    /// The run after its next unit was minted.
    pub open spec fn advance(self) -> MintRun
        recommends
            self.remaining > 0,
    {
        MintRun { to: self.to, end_id: self.end_id, remaining: (self.remaining - 1) as u64 }
    }

    /// The run after it was given up.
    pub open spec fn abandon(self) -> MintRun {
        MintRun { to: self.to, end_id: self.end_id, remaining: 0 }
    }

    /// The id of the unit to mint next, or `None` when the run is over.
    pub fn next(&self) -> (id: Option<u64>)
        ensures
            id == self.next_id(),
    {
        if 0 < self.remaining && self.remaining <= self.end_id {
            Some(self.end_id - self.remaining + 1)
        } else {
            None
        }
    }
}

impl Psp34Nft {
    /// The parts are well formed and every stored attribute value is text.
    pub open spec fn wf(&self) -> bool {
        &&& self.metadata.wf()
        &&& self.metadata.is_text()
        &&& self.manager.wf()
        &&& self.manager.is_text()
    }

    /// The collection after one more token was minted.
    pub open spec fn minted(self) -> Psp34Nft {
        Psp34Nft {
            manager: Manager {
                last_token_id: (self.manager.last_token_id + 1) as u64,
                ..self.manager
            },
            ..self
        }
    }

    /// Whether `run` is a run on this collection that has a unit left: it
    /// continues after the token minted last and stays within the supply.
    pub open spec fn continues(&self, run: MintRun) -> bool {
        &&& run.remaining > 0
        &&& run.end_id == self.manager.last_token_id + run.remaining
        &&& run.end_id <= self.manager.max_supply
    }

    /// Tests whether `run` is a run on this collection that has a unit left.
    pub fn can_continue(&self, run: &MintRun) -> (ok: bool)
        ensures
            ok == self.continues(*run),
    {
        run.remaining > 0 && run.end_id <= self.manager.max_supply && run.end_id
            >= run.remaining && run.end_id - run.remaining == self.manager.last_token_id
    }

    /// The collection and the run after `units` more units of `run` were
    /// minted.
    pub open spec fn after_units(self, run: MintRun, units: nat) -> (Psp34Nft, MintRun)
        decreases units,
    {
        if units == 0 {
            (self, run)
        } else {
            let (collection, rest) = self.after_units(run, (units - 1) as nat);
            (collection.minted(), rest.advance())
        }
    }

    /// A mint of `mint_amount` tokens that passes the checks, and whose units
    /// are all minted, mints exactly the ids that follow the token minted last,
    /// in ascending order and for `caller`: after `units` of them, the next
    /// unit has the id `last_token_id + units + 1` and gives the event of that
    /// id passing from nobody to `caller`, and after all of them
    /// `last_token_id` is higher by `mint_amount` and the run is over. Nothing
    /// else changes on the way.
    pub proof fn lemma_mint_run(
        self,
        caller: AccountId,
        transferred_value: Balance,
        mint_amount: u64,
        units: nat,
    )
        requires
            self.wf(),
            self.manager.amount_fits(mint_amount),
            self.manager.value_matches(transferred_value, mint_amount),
            units <= mint_amount,
        ensures
            ({
                let run = MintRun {
                    to: caller,
                    end_id: (self.manager.last_token_id + mint_amount) as u64,
                    remaining: mint_amount,
                };
                let (collection, rest) = self.after_units(run, units);
                &&& collection == (Psp34Nft {
                    manager: Manager {
                        last_token_id: (self.manager.last_token_id + units) as u64,
                        ..self.manager
                    },
                    ..self
                })
                &&& collection.wf()
                &&& rest == (MintRun {
                    to: caller,
                    end_id: run.end_id,
                    remaining: (mint_amount - units) as u64,
                })
                &&& units < mint_amount ==> collection.continues(rest) && rest.event()
                    == (Transfer {
                    from: None,
                    to: Some(caller),
                    id: (self.manager.last_token_id + units + 1) as u64,
                })
                &&& units == mint_amount ==> rest.next_id() is None
                    && collection.manager.last_token_id == self.manager.last_token_id
                    + mint_amount
            }),
        decreases units,
    {
        if units > 0 {
            self.lemma_mint_run(caller, transferred_value, mint_amount, (units - 1) as nat);
        } else {
            assert(self.manager == (Manager {
                last_token_id: (self.manager.last_token_id + 0) as u64,
                ..self.manager
            }));
        }
    }

    /// A new collection, owned by `caller`, that holds no token, sells each for
    /// `price_per_mint`, mints one token per call and at most `max_supply` in
    /// all. Its name, symbol and base URI are stored as attributes of the
    /// collection itself.
    pub fn new(
        caller: AccountId,
        name: String,
        symbol: String,
        base_uri: String,
        max_supply: u64,
        price_per_mint: Balance,
    ) -> (instance: Psp34Nft)
        ensures
            instance.wf(),
            instance.owner == caller,
            instance.metadata@ == Map::<(u64, Seq<u8>), Seq<u8>>::empty().insert(
                (SENTINEL_ID, name_key()),
                encode_utf8(name@),
            ).insert((SENTINEL_ID, symbol_key()), encode_utf8(symbol@)).insert(
                (SENTINEL_ID, base_uri_key()),
                encode_utf8(base_uri@),
            ),
            instance.manager.max_supply == max_supply,
            instance.manager.price_per_mint == price_per_mint,
            instance.manager.last_token_id == 0,
            instance.manager.max_amount == 1,
            instance.manager.attribute_count == 0,
            instance.manager.names() == Seq::<Seq<u8>>::empty(),
            instance.manager.locked_tokens@ == Seq::<u64>::empty(),
            instance.manager.locked_token_count == 0,
    {
        let mut metadata = Metadata::new();
        proof {
            encode_utf8_valid_utf8(name@);
            encode_utf8_valid_utf8(symbol@);
            encode_utf8_valid_utf8(base_uri@);
        }
        metadata.set_attribute(SENTINEL_ID, "name".as_bytes_vec(), text_bytes(&name));
        metadata.set_attribute(SENTINEL_ID, "symbol".as_bytes_vec(), text_bytes(&symbol));
        metadata.set_attribute(SENTINEL_ID, "baseURI".as_bytes_vec(), text_bytes(&base_uri));
        let manager = Manager {
            last_token_id: 0,
            attribute_count: 0,
            attribute_names: Vec::new(),
            locked_tokens: Vec::new(),
            locked_token_count: 0,
            price_per_mint,
            max_amount: 1,
            max_supply,
        };
        assert(manager.names() =~= Seq::<Seq<u8>>::empty());
        Psp34Nft { metadata, owner: caller, manager }
    }

    /// Decides whether `caller` may have `mint_amount` tokens for
    /// `transferred_value`. The amount is checked first, then the payment. On
    /// success the run of unit mints is returned: the ids
    /// `last_token_id + 1 ..= last_token_id + mint_amount`, in this order, for
    /// `caller`. Nothing is minted yet and the collection is unchanged.
    pub fn mint(&self, caller: AccountId, transferred_value: Balance, mint_amount: u64) -> (run:
        Result<MintRun, Error>)
        ensures
            run is Ok <==> self.manager.amount_fits(mint_amount) && self.manager.value_matches(
                transferred_value,
                mint_amount,
            ),
            run is Ok ==> run->Ok_0 == (MintRun {
                to: caller,
                end_id: (self.manager.last_token_id + mint_amount) as u64,
                remaining: mint_amount,
            }) && self.continues(run->Ok_0),
            !self.manager.amount_fits(mint_amount) ==> run is Err && run->Err_0.is_custom(
                self.manager.amount_fault(mint_amount),
            ),
            self.manager.amount_fits(mint_amount) && !self.manager.value_matches(
                transferred_value,
                mint_amount,
            ) ==> run is Err && run->Err_0.is_custom("Bad Mint Value"@),
            mint_amount == 0 ==> run is Err,
            mint_amount > self.manager.max_amount ==> run is Err,
            self.manager.last_token_id + mint_amount > self.manager.max_supply ==> run is Err,
    {
        match self.check_amount(mint_amount) {
            Err(e) => {
                return Err(e);
            },
            Ok(()) => {},
        }
        match self.check_value(transferred_value, mint_amount) {
            Err(e) => {
                return Err(e);
            },
            Ok(()) => {},
        }
        let mint_offset: u64 = self.manager.last_token_id + mint_amount;
        Ok(MintRun { to: caller, end_id: mint_offset, remaining: mint_amount })
    }

    /// Takes in the outcome of minting the next unit of `run` on the base
    /// ledger. A minted unit raises `last_token_id` by one and gives the event
    /// to emit. A failed unit ends the run with an error; the units minted
    /// before it stay minted.
    pub fn mint_unit(&mut self, run: &mut MintRun, outcome: Result<(), PSP34Error>) -> (event:
        Result<Transfer, Error>)
        requires
            old(self).wf(),
            old(self).continues(*old(run)),
        ensures
            final(self).wf(),
            outcome is Ok ==> *final(self) == old(self).minted() && *final(run) == old(
                run,
            ).advance() && event == Ok::<Transfer, Error>(old(run).event()),
            outcome is Err ==> *final(self) == *old(self) && *final(run) == old(run).abandon()
                && event is Err && event->Err_0.is_custom("Cannot mint"@),
            final(run).remaining > 0 ==> final(self).continues(*final(run)),
    {
        if outcome.is_err() {
            run.remaining = 0;
            return Err(Error::Custom(String::from_str("Cannot mint")));
        }
        let mint_id: u64 = self.manager.last_token_id + 1;
        self.manager.last_token_id += 1;
        run.remaining -= 1;
        Ok(Transfer { from: None, to: Some(run.to), id: mint_id })
    }

    /// Decides whether `caller` may burn the token `id` of `account`, given the
    /// token's owner of record and whether `account` has approved `caller` for
    /// it. `account` must own the token, and `caller` must be `account` or
    /// approved. On success the burn to carry out on the base ledger is
    /// returned: `id` passes from `account` to nobody.
    pub fn burn(
        &self,
        caller: AccountId,
        account: AccountId,
        id: u64,
        token_owner: AccountId,
        allowance: bool,
    ) -> (burned: Result<Transfer, PSP34Error>)
        ensures
            burned is Ok <==> token_owner == account && (caller == account || allowance),
            burned is Ok ==> burned->Ok_0 == (Transfer { from: Some(account), to: None, id }),
            token_owner != account ==> burned is Err && burned->Err_0.is_custom(
                "not token owner"@,
            ),
            token_owner == account && caller != account && !allowance ==> burned is Err
                && burned->Err_0.is_custom("caller is not token owner or approved"@),
    {
        if token_owner != account {
            return Err(PSP34Error::Custom("not token owner".as_bytes_vec()));
        }
        if caller == account || allowance {
            Ok(Transfer { from: Some(account), to: None, id })
        } else {
            Err(PSP34Error::Custom("caller is not token owner or approved".as_bytes_vec()))
        }
    }
}

} // verus!
