//! The rules of the collection: bounded sequential minting, the registry of
//! attribute names, token locks and the texts derived from stored attributes.

use vstd::prelude::*;
use vstd::string::*;
use vstd::utf8::{decode_utf8, encode_utf8, valid_utf8};
use crate::account::{AccountId, Balance};
use crate::error::{Error, OwnableError};
use crate::psp34_nft::{base_uri_key, Psp34Nft, SENTINEL_ID};
use crate::text::{bytes_text, copy_bytes, decimal, decimal_string, same_bytes, text_bytes};

verus! {

/// The mint settings of a collection, its registry of attribute names and its
/// token locks.
#[derive(Debug, PartialEq, Eq)]
pub struct Manager {
    /// The id of the token minted last; 0 while none was minted.
    pub last_token_id: u64,
    /// How many attribute names are registered.
    pub attribute_count: u32,
    /// The registered names: the name with index `k`, counted from 1, is at
    /// position `k - 1`.
    pub attribute_names: Vec<Vec<u8>>,
    /// The ids of the locked tokens.
    pub locked_tokens: Vec<u64>,
    /// How many times a token was locked.
    pub locked_token_count: u64,
    /// The price of one token.
    pub price_per_mint: Balance,
    /// The most tokens that one call may mint.
    pub max_amount: u64,
    /// The most tokens that the collection may ever hold.
    pub max_supply: u64,
}

impl Default for Manager {
    /// Settings under which nothing can be minted, with nothing registered and
    /// nothing locked.
    fn default() -> (manager: Manager)
        ensures
            manager.wf(),
            manager.is_text(),
            manager.last_token_id == 0,
            manager.attribute_count == 0,
            manager.attribute_names@.len() == 0,
            manager.locked_tokens@.len() == 0,
            manager.locked_token_count == 0,
            manager.price_per_mint == 0,
            manager.max_amount == 0,
            manager.max_supply == 0,
    {
        Manager {
            last_token_id: 0,
            attribute_count: 0,
            attribute_names: Vec::new(),
            locked_tokens: Vec::new(),
            locked_token_count: 0,
            price_per_mint: 0,
            max_amount: 0,
            max_supply: 0,
        }
    }
}

impl Manager {
    /// The registered attribute names in the order of their indices.
    pub open spec fn names(&self) -> Seq<Seq<u8>> {
        Seq::new(self.attribute_names.len() as nat, |i: int| self.attribute_names[i]@)
    }

    /// Whether `name` is registered.
    pub open spec fn is_registered(&self, name: Seq<u8>) -> bool {
        self.names().contains(name)
    }

    /// The ids of the locked tokens.
    pub open spec fn locked(&self) -> Set<u64> {
        self.locked_tokens@.to_set()
    }

    /// Whether the token `id` is locked.
    pub open spec fn is_locked(&self, id: u64) -> bool {
        self.locked().contains(id)
    }

    /// The count matches the registry, no name is registered twice, and no
    /// more tokens were minted than the collection may hold.
    pub open spec fn wf(&self) -> bool {
        &&& self.attribute_count == self.attribute_names.len()
        &&& self.last_token_id <= self.max_supply
        &&& self.names().no_duplicates()
    }

    /// Whether every registered name is text in UTF-8.
    pub open spec fn is_text(&self) -> bool {
        forall|i: int| 0 <= i < self.names().len() ==> valid_utf8(#[trigger] self.names()[i])
    }

    /// Tests whether every registered name is text.
    pub fn holds_text(&self) -> (ok: bool)
        ensures
            ok == self.is_text(),
    {
        let mut i: usize = 0;
        while i < self.attribute_names.len()
            invariant
                i <= self.attribute_names.len(),
                forall|a: int| 0 <= a < i ==> valid_utf8(#[trigger] self.names()[a]),
            decreases self.attribute_names.len() - i,
        {
            assert(self.names()[i as int] == self.attribute_names[i as int]@);
            if bytes_text(&self.attribute_names[i]).is_none() {
                return false;
            }
            i += 1;
        }
        true
    }

    /// Tests whether the settings and the registry are well formed.
    pub fn is_wf(&self) -> (ok: bool)
        ensures
            ok == self.wf(),
    {
        if self.attribute_names.len() > u32::MAX as usize {
            return false;
        }
        if self.attribute_names.len() != self.attribute_count as usize {
            return false;
        }
        if self.last_token_id > self.max_supply {
            return false;
        }
        let mut j: usize = 0;
        while j < self.attribute_names.len()
            invariant
                j <= self.attribute_names.len(),
                forall|a: int, b: int| 0 <= a < b < j ==> self.names()[a] != self.names()[b],
            decreases self.attribute_names.len() - j,
        {
            let mut i: usize = 0;
            while i < j
                invariant
                    i <= j < self.attribute_names.len(),
                    forall|a: int| 0 <= a < i ==> self.names()[a] != self.names()[j as int],
                decreases j - i,
            {
                if same_bytes(&self.attribute_names[i], &self.attribute_names[j]) {
                    assert(self.names()[i as int] == self.names()[j as int]);
                    return false;
                }
                i += 1;
            }
            j += 1;
        }
        true
    }

    /// Tests whether `name` is registered.
    pub fn has_name(&self, name: &Vec<u8>) -> (found: bool)
        ensures
            found == self.is_registered(name@),
    {
        let mut i: usize = 0;
        while i < self.attribute_names.len()
            invariant
                i <= self.attribute_names.len(),
                forall|j: int| 0 <= j < i ==> self.names()[j] != name@,
            decreases self.attribute_names.len() - i,
        {
            if same_bytes(&self.attribute_names[i], name) {
                assert(self.names()[i as int] == name@);
                return true;
            }
            i += 1;
        }
        false
    }

    /// Whether the two agree on everything but the registry of names.
    pub open spec fn same_but_names(&self, other: &Manager) -> bool {
        &&& self.last_token_id == other.last_token_id
        &&& self.locked_tokens@ == other.locked_tokens@
        &&& self.locked_token_count == other.locked_token_count
        &&& self.price_per_mint == other.price_per_mint
        &&& self.max_amount == other.max_amount
        &&& self.max_supply == other.max_supply
    }

    /// Whether one call may mint `mint_amount` tokens: at least one, no more
    /// than a call may mint, and no more than the supply still allows.
    pub open spec fn amount_fits(&self, mint_amount: u64) -> bool {
        &&& mint_amount != 0
        &&& mint_amount <= self.max_amount
        &&& self.last_token_id + mint_amount <= self.max_supply
    }

    /// What is wrong with a `mint_amount` that does not fit.
    pub open spec fn amount_fault(&self, mint_amount: u64) -> Seq<char> {
        if mint_amount == 0 {
            "Cannot Mint Zero Tokens"@
        } else if mint_amount > self.max_amount {
            "Too Many Tokens To Mint"@
        } else {
            "Collection Is Full"@
        }
    }

    /// Whether `transferred_value` is the exact price of `mint_amount` tokens.
    pub open spec fn value_matches(&self, transferred_value: Balance, mint_amount: u64) -> bool {
        transferred_value == mint_amount * self.price_per_mint
    }

    /// The registry after `name` was offered to it: unchanged where the name is
    /// registered, else with the name at the next index.
    pub open spec fn names_with(&self, name: Seq<u8>) -> Seq<Seq<u8>> {
        if self.is_registered(name) {
            self.names()
        } else {
            self.names().push(name)
        }
    }
}

/// Registers `attribute_input` unless a registered name equals it byte for
/// byte. A new name gets the next index, and the registry must have room for
/// it: its count stays within `u32`.
pub fn add_attribute_name(manager: &mut Manager, attribute_input: &Vec<u8>)
    requires
        old(manager).wf(),
        old(manager).is_registered(attribute_input@) || old(manager).attribute_count < u32::MAX,
    ensures
        final(manager).wf(),
        final(manager).names() == old(manager).names_with(attribute_input@),
        final(manager).same_but_names(old(manager)),
        old(manager).is_text() && valid_utf8(attribute_input@) ==> final(manager).is_text(),
{
    let ghost before = *manager;
    let mut exist: bool = false;
    let mut index: u32 = 0;
    while index < manager.attribute_count
        invariant_except_break
            index <= manager.attribute_count,
            !exist,
            forall|j: int| 0 <= j < index ==> manager.names()[j] != attribute_input@,
        invariant
            *manager == before,
            manager.wf(),
        ensures
            exist == manager.is_registered(attribute_input@),
        decreases manager.attribute_count - index,
    {
        if same_bytes(&manager.attribute_names[index as usize], attribute_input) {
            exist = true;
            assert(manager.names()[index as int] == attribute_input@);
            break;
        }
        index += 1;
    }
    if !exist {
        manager.attribute_count = manager.attribute_count + 1;
        manager.attribute_names.push(copy_bytes(attribute_input));
        proof {
            assert(!before.is_registered(attribute_input@));
            assert(manager.names() =~= before.names().push(attribute_input@));
            assert(manager.names().no_duplicates());
        }
    }
}

/// The checks that stand before a mint.
pub trait InternalTraits {
    /// The mint settings that the checks read.
    spec fn mint_settings(&self) -> Manager;

    /// Accepts `transferred_value` where it is the exact price of
    /// `mint_amount` tokens: neither less nor more.
    fn check_value(&self, transferred_value: Balance, mint_amount: u64) -> (checked: Result<
        (),
        Error,
    >)
        ensures
            checked is Ok <==> self.mint_settings().value_matches(transferred_value, mint_amount),
            checked is Err ==> checked->Err_0.is_custom("Bad Mint Value"@),
    ;

    /// Accepts a `mint_amount` that is not zero, that one call may mint and
    /// that the supply still allows.
    fn check_amount(&self, mint_amount: u64) -> (checked: Result<(), Error>)
        ensures
            checked is Ok <==> self.mint_settings().amount_fits(mint_amount),
            checked is Err ==> checked->Err_0.is_custom(
                self.mint_settings().amount_fault(mint_amount),
            ),
            mint_amount == 0 ==> checked is Err,
            mint_amount > self.mint_settings().max_amount ==> checked is Err,
            self.mint_settings().last_token_id + mint_amount > self.mint_settings().max_supply
                ==> checked is Err,
    ;

    /// Accepts a token that the base ledger knows an owner of.
    fn token_exists(&self, token_owner: Option<AccountId>) -> (checked: Result<(), Error>)
        ensures
            checked is Ok <==> token_owner is Some,
            checked is Err ==> checked->Err_0 == Error::BidNotExist,
    ;
}

impl InternalTraits for Psp34Nft {
    open spec fn mint_settings(&self) -> Manager {
        self.manager
    }

    fn check_value(&self, transferred_value: Balance, mint_amount: u64) -> (checked: Result<
        (),
        Error,
    >) {
        if let Some(value) = (mint_amount as u128).checked_mul(self.manager.price_per_mint) {
            if transferred_value == value {
                return Ok(());
            }
        }
        Err(Error::Custom(String::from_str("Bad Mint Value")))
    }

    fn check_amount(&self, mint_amount: u64) -> (checked: Result<(), Error>) {
        if mint_amount == 0 {
            return Err(Error::Custom(String::from_str("Cannot Mint Zero Tokens")));
        }
        if mint_amount > self.manager.max_amount {
            return Err(Error::Custom(String::from_str("Too Many Tokens To Mint")));
        }
        if let Some(amount) = self.manager.last_token_id.checked_add(mint_amount) {
            if amount <= self.manager.max_supply {
                return Ok(());
            }
        }
        Err(Error::Custom(String::from_str("Collection Is Full")))
    }

    fn token_exists(&self, token_owner: Option<AccountId>) -> (checked: Result<(), Error>) {
        match token_owner {
            Some(_) => Ok(()),
            None => Err(Error::BidNotExist),
        }
    }
}

/// A name and a value as the bytes that are stored for them.
pub open spec fn encoded(pair: (String, String)) -> (Seq<u8>, Seq<u8>) {
    (encode_utf8(pair.0@), encode_utf8(pair.1@))
}

/// The registry `names` after the names of `pairs` were offered to it one by
/// one, the first pair first.
pub open spec fn registered(names: Seq<Seq<u8>>, pairs: Seq<(String, String)>) -> Seq<Seq<u8>>
    decreases pairs.len(),
{
    if pairs.len() == 0 {
        names
    } else {
        let before = registered(names, pairs.drop_last());
        let name = encoded(pairs.last()).0;
        if before.contains(name) {
            before
        } else {
            before.push(name)
        }
    }
}

/// The attribute values `values` after the `pairs` were stored for `token_id`
/// one by one, the first pair first.
pub open spec fn stored(
    values: Map<(u64, Seq<u8>), Seq<u8>>,
    token_id: u64,
    pairs: Seq<(String, String)>,
) -> Map<(u64, Seq<u8>), Seq<u8>>
    decreases pairs.len(),
{
    if pairs.len() == 0 {
        values
    } else {
        stored(values, token_id, pairs.drop_last()).insert(
            (token_id, encoded(pairs.last()).0),
            encoded(pairs.last()).1,
        )
    }
}

/// Storing attributes for one token leaves those of every other id alone.
pub proof fn lemma_stored_keeps_others(
    values: Map<(u64, Seq<u8>), Seq<u8>>,
    token_id: u64,
    pairs: Seq<(String, String)>,
    key: (u64, Seq<u8>),
)
    requires
        key.0 != token_id,
    ensures
        stored(values, token_id, pairs).contains_key(key) == values.contains_key(key),
        values.contains_key(key) ==> stored(values, token_id, pairs)[key] == values[key],
    decreases pairs.len(),
{
    if pairs.len() > 0 {
        lemma_stored_keeps_others(values, token_id, pairs.drop_last(), key);
    }
}

/// A registry never shrinks while names are offered to it.
pub proof fn lemma_registered_grows(names: Seq<Seq<u8>>, pairs: Seq<(String, String)>, n: int)
    requires
        0 <= n <= pairs.len(),
    ensures
        registered(names, pairs.take(n)).len() <= registered(names, pairs).len(),
    decreases pairs.len() - n,
{
    if n < pairs.len() {
        lemma_registered_grows(names, pairs, n + 1);
        assert(pairs.take(n + 1).drop_last() =~= pairs.take(n));
    } else {
        assert(pairs.take(n) =~= pairs);
    }
}

/// A name is in the registry after names were offered to it exactly when it
/// was there before or was one of those offered.
pub proof fn lemma_registered_contains(
    names: Seq<Seq<u8>>,
    pairs: Seq<(String, String)>,
    name: Seq<u8>,
)
    ensures
        registered(names, pairs).contains(name) <==> names.contains(name) || exists|j: int|
            0 <= j < pairs.len() && encoded(#[trigger] pairs[j]).0 == name,
    decreases pairs.len(),
{
    if pairs.len() > 0 {
        let front = pairs.drop_last();
        let before = registered(names, front);
        let offered = encoded(pairs.last()).0;
        lemma_registered_contains(names, front, name);
        if exists|j: int| 0 <= j < pairs.len() && encoded(#[trigger] pairs[j]).0 == name {
            let j = choose|j: int| 0 <= j < pairs.len() && encoded(#[trigger] pairs[j]).0 == name;
            if j < front.len() {
                assert(encoded(front[j]).0 == name);
            }
        }
        if exists|j: int| 0 <= j < front.len() && encoded(#[trigger] front[j]).0 == name {
            let j = choose|j: int| 0 <= j < front.len() && encoded(#[trigger] front[j]).0 == name;
            assert(encoded(pairs[j]).0 == name);
        }
        if before.contains(offered) {
        } else {
            let grown = before.push(offered);
            assert(grown[grown.len() - 1] == offered);
            if grown.contains(name) {
                let k = choose|k: int| 0 <= k < grown.len() && grown[k] == name;
                if k < before.len() {
                    assert(before[k] == name);
                }
            }
            if before.contains(name) {
                let k = choose|k: int| 0 <= k < before.len() && before[k] == name;
                assert(grown[k] == name);
            }
        }
        assert(encoded(pairs[pairs.len() - 1]).0 == offered);
    }
}

/// Lets the owner of record of a token pass and nobody else.
pub fn only_token_owner(caller: AccountId, token_owner: AccountId) -> (allowed: Result<(), Error>)
    ensures
        allowed is Ok <==> token_owner == caller,
        allowed is Err ==> allowed->Err_0 == Error::NotTokenOwner,
{
    if token_owner != caller {
        return Err(Error::NotTokenOwner);
    }
    Ok(())
}

/// Tests whether `ids` holds `id`.
fn holds_id(ids: &Vec<u64>, id: u64) -> (found: bool)
    ensures
        found == ids@.contains(id),
{
    let mut i: usize = 0;
    while i < ids.len()
        invariant
            i <= ids.len(),
            forall|j: int| 0 <= j < i ==> ids[j] != id,
        decreases ids.len() - i,
    {
        if ids[i] == id {
            return true;
        }
        i += 1;
    }
    false
}

impl Psp34Nft {
    /// Whether the two agree on everything but the attribute names and values.
    pub open spec fn same_but_attributes(&self, other: &Psp34Nft) -> bool {
        self.owner == other.owner && self.manager.same_but_names(&other.manager)
    }

    /// The text of the attribute `name` of `token_id`: the stored value decoded,
    /// or the empty text where none is stored.
    pub open spec fn attribute_text(&self, token_id: u64, name: Seq<u8>) -> Seq<char> {
        if self.metadata@.contains_key((token_id, name)) {
            decode_utf8(self.metadata@[(token_id, name)])
        } else {
            Seq::empty()
        }
    }

    /// Whether `values` are the texts of the attributes `names` of `token_id`,
    /// one for each name and in the order of the names.
    pub open spec fn attributes_read(
        &self,
        token_id: u64,
        names: Seq<String>,
        values: Seq<String>,
    ) -> bool {
        &&& values.len() == names.len()
        &&& forall|i: int|
            0 <= i < names.len() ==> (#[trigger] values[i])@ == self.attribute_text(
                token_id,
                encode_utf8(names[i]@),
            )
    }

    /// The name registered under `index`, decoded, or the empty text where
    /// `index` is 0 or beyond the registry.
    pub open spec fn attribute_name_text(&self, index: u32) -> Seq<char> {
        if 1 <= index <= self.manager.names().len() {
            decode_utf8(self.manager.names()[index - 1])
        } else {
            Seq::empty()
        }
    }

    /// Tests whether the collection is well formed.
    pub fn is_wf(&self) -> (ok: bool)
        ensures
            ok == self.wf(),
    {
        self.metadata.is_wf() && self.metadata.holds_text() && self.manager.is_wf()
            && self.manager.holds_text()
    }

    /// Lets the owner of the contract pass and nobody else.
    pub fn only_owner(&self, caller: AccountId) -> (allowed: Result<(), Error>)
        ensures
            allowed is Ok <==> caller == self.owner,
            allowed is Err ==> allowed->Err_0 == Error::OwnableError(
                OwnableError::CallerIsNotOwner,
            ),
    {
        if self.owner != caller {
            return Err(Error::from(OwnableError::CallerIsNotOwner));
        }
        Ok(())
    }

    /// The id of the token minted last.
    pub fn get_last_token_id(&self) -> (id: u64)
        ensures
            id == self.manager.last_token_id,
    {
        self.manager.last_token_id
    }

    /// What `lock` makes of a collection, on request of `caller`, for
    /// `token_id` whose owner of record is `token_owner`: refused for anyone
    /// but that owner, with nothing changed; else the token is locked and the
    /// lock counted, with nothing else changed.
    pub open spec fn locked_by(
        &self,
        caller: AccountId,
        token_id: u64,
        token_owner: AccountId,
        after: Psp34Nft,
        result: Result<(), Error>,
    ) -> bool {
        if token_owner == caller {
            &&& result is Ok
            &&& after.manager.locked() == self.manager.locked().insert(token_id)
            &&& after.manager.locked_token_count == self.manager.locked_token_count + 1
            &&& after.manager.attribute_count == self.manager.attribute_count
            &&& after.manager.attribute_names == self.manager.attribute_names
            &&& after.manager.last_token_id == self.manager.last_token_id
            &&& after.manager.price_per_mint == self.manager.price_per_mint
            &&& after.manager.max_amount == self.manager.max_amount
            &&& after.manager.max_supply == self.manager.max_supply
            &&& after.metadata == self.metadata
            &&& after.owner == self.owner
        } else {
            result == Err::<(), Error>(Error::NotTokenOwner) && after == *self
        }
    }

    /// Locks `token_id` for good, for `caller` who must be `token_owner`, the
    /// token's owner of record. Each lock is counted, a repeated one too.
    pub fn lock(&mut self, caller: AccountId, token_id: u64, token_owner: AccountId) -> (locked:
        Result<(), Error>)
        requires
            old(self).wf(),
            token_owner == caller ==> old(self).manager.locked_token_count < u64::MAX,
        ensures
            final(self).wf(),
            old(self).locked_by(caller, token_id, token_owner, *final(self), locked),
    {
        match only_token_owner(caller, token_owner) {
            Err(e) => {
                return Err(e);
            },
            Ok(()) => {},
        }
        let ghost before = self.manager;
        self.manager.locked_token_count = self.manager.locked_token_count + 1;
        if !holds_id(&self.manager.locked_tokens, token_id) {
            self.manager.locked_tokens.push(token_id);
            proof {
                before.locked_tokens@.lemma_push_to_set_commute(token_id);
            }
        } else {
            assert(self.manager.locked() =~= before.locked().insert(token_id));
        }
        assert(self.manager.names() =~= before.names());
        Ok(())
    }

    /// Whether `token_id` is locked.
    pub fn is_locked_nft(&self, token_id: u64) -> (locked: bool)
        ensures
            locked == self.manager.is_locked(token_id),
    {
        holds_id(&self.manager.locked_tokens, token_id)
    }

    /// How many times a token was locked.
    pub fn get_locked_token_count(&self) -> (count: u64)
        ensures
            count == self.manager.locked_token_count,
    {
        self.manager.locked_token_count
    }

    /// Replaces the base URI of the collection, for the owner of the contract.
    pub fn set_base_uri(&mut self, caller: AccountId, uri: String) -> (set: Result<(), Error>)
        requires
            old(self).wf(),
        ensures
            final(self).wf(),
            set is Ok <==> caller == old(self).owner,
            set is Err ==> set->Err_0 == Error::OwnableError(OwnableError::CallerIsNotOwner)
                && *final(self) == *old(self),
            set is Ok ==> final(self).metadata@ == old(self).metadata@.insert(
                (SENTINEL_ID, base_uri_key()),
                encode_utf8(uri@),
            ) && final(self).manager == old(self).manager && final(self).owner == old(self).owner,
    {
        match self.only_owner(caller) {
            Err(e) => {
                return Err(e);
            },
            Ok(()) => {},
        }
        proof {
            vstd::utf8::encode_utf8_valid_utf8(uri@);
        }
        self.metadata.set_attribute(SENTINEL_ID, "baseURI".as_bytes_vec(), text_bytes(&uri));
        Ok(())
    }

    /// Whether `caller` may set attributes of `token_id`: the owner of the
    /// contract may, on any token but the sentinel id, unless it is locked.
    pub open spec fn accepts_attributes(&self, caller: AccountId, token_id: u64) -> bool {
        caller == self.owner && token_id != SENTINEL_ID && !self.manager.is_locked(token_id)
    }

    /// What `set_multiple_attributes` makes of a collection, on request of
    /// `caller`, for `token_id` and the `pairs` of names and values. It is
    /// refused, with nothing changed, for anyone but the owner of the
    /// contract, then for the sentinel id, then for a locked token. Else each
    /// name is offered to the registry and each value stored, the first pair
    /// first, with nothing else changed.
    pub open spec fn attributes_set_by(
        &self,
        caller: AccountId,
        token_id: u64,
        pairs: Seq<(String, String)>,
        after: Psp34Nft,
        result: Result<(), Error>,
    ) -> bool {
        if caller != self.owner {
            result == Err::<(), Error>(Error::OwnableError(OwnableError::CallerIsNotOwner))
                && after == *self
        } else if token_id == SENTINEL_ID {
            result == Err::<(), Error>(Error::InvalidInput) && after == *self
        } else if self.manager.is_locked(token_id) {
            result is Err && result->Err_0.is_custom("Token is locked"@) && after == *self
        } else {
            &&& result is Ok
            &&& after.manager.names() == registered(self.manager.names(), pairs)
            &&& after.manager.attribute_count == after.manager.names().len()
            &&& after.metadata@ == stored(self.metadata@, token_id, pairs)
            &&& after.same_but_attributes(self)
            &&& forall|key: (u64, Seq<u8>)|
                key.0 != token_id ==> (#[trigger] after.metadata@.contains_key(key))
                    == self.metadata@.contains_key(key) && (self.metadata@.contains_key(key)
                    ==> after.metadata@[key] == self.metadata@[key])
        }
    }

    /// Tests whether the registry has room for the names of `metadata` that
    /// are not registered yet: its count must stay within `u32`.
    pub fn has_room_for(&self, metadata: &Vec<(String, String)>) -> (ok: bool)
        requires
            self.manager.wf(),
        ensures
            ok == (registered(self.manager.names(), metadata@).len() <= u32::MAX),
    {
        let ghost names = self.manager.names();
        let mut fresh: usize = 0;
        let mut i: usize = 0;
        while i < metadata.len()
            invariant
                i <= metadata.len(),
                fresh <= i,
                names == self.manager.names(),
                registered(names, metadata@.take(i as int)).len() == names.len() + fresh,
            decreases metadata.len() - i,
        {
            let name = text_bytes(&metadata[i].0);
            let mut known = self.manager.has_name(&name);
            let mut j: usize = 0;
            while j < i && !known
                invariant
                    j <= i < metadata.len(),
                    name@ == encoded(metadata@[i as int]).0,
                    known ==> names.contains(name@) || exists|k: int|
                        0 <= k < i && encoded(#[trigger] metadata@[k]).0 == name@,
                    !known ==> !names.contains(name@) && forall|k: int|
                        0 <= k < j ==> encoded(#[trigger] metadata@[k]).0 != name@,
                decreases i - j,
            {
                let earlier = text_bytes(&metadata[j].0);
                if same_bytes(&earlier, &name) {
                    known = true;
                }
                j += 1;
            }
            proof {
                let front = metadata@.take(i as int);
                lemma_registered_contains(names, front, name@);
                assert(metadata@.take(i as int + 1).drop_last() =~= front);
                assert(metadata@.take(i as int + 1).last() == metadata@[i as int]);
                if known {
                    if !names.contains(name@) {
                        let k = choose|k: int|
                            0 <= k < i && encoded(#[trigger] metadata@[k]).0 == name@;
                        assert(encoded(front[k]).0 == name@);
                    }
                    assert(registered(names, front).contains(name@));
                } else {
                    if exists|k: int|
                        0 <= k < front.len() && encoded(#[trigger] front[k]).0 == name@ {
                        let k = choose|k: int|
                            0 <= k < front.len() && encoded(#[trigger] front[k]).0 == name@;
                        assert(encoded(metadata@[k]).0 == name@);
                    }
                    assert(!registered(names, front).contains(name@));
                }
            }
            if !known {
                fresh += 1;
            }
            i += 1;
        }
        assert(metadata@.take(i as int) =~= metadata@);
        fresh <= (u32::MAX - self.manager.attribute_count) as usize
    }

    /// Stores the `metadata` pairs of names and values for `token_id`, for the
    /// owner of the contract, and registers each name that is not registered
    /// yet. Refused for the sentinel id and for a locked token.
    pub fn set_multiple_attributes(
        &mut self,
        caller: AccountId,
        token_id: u64,
        metadata: Vec<(String, String)>,
    ) -> (set: Result<(), Error>)
        requires
            old(self).wf(),
            old(self).accepts_attributes(caller, token_id) ==> registered(
                old(self).manager.names(),
                metadata@,
            ).len() <= u32::MAX,
        ensures
            final(self).wf(),
            old(self).attributes_set_by(caller, token_id, metadata@, *final(self), set),
    {
        match self.only_owner(caller) {
            Err(e) => {
                return Err(e);
            },
            Ok(()) => {},
        }
        if token_id == SENTINEL_ID {
            return Err(Error::InvalidInput);
        }
        if self.is_locked_nft(token_id) {
            return Err(Error::Custom(String::from_str("Token is locked")));
        }
        let ghost before = *self;
        let mut i: usize = 0;
        while i < metadata.len()
            invariant
                i <= metadata.len(),
                self.wf(),
                self.same_but_attributes(&before),
                self.manager.names() == registered(
                    before.manager.names(),
                    metadata@.take(i as int),
                ),
                self.metadata@ == stored(before.metadata@, token_id, metadata@.take(i as int)),
                registered(before.manager.names(), metadata@).len() <= u32::MAX,
            decreases metadata.len() - i,
        {
            let attribute = text_bytes(&metadata[i].0);
            let value = text_bytes(&metadata[i].1);
            proof {
                vstd::utf8::encode_utf8_valid_utf8(metadata@[i as int].0@);
                vstd::utf8::encode_utf8_valid_utf8(metadata@[i as int].1@);
                lemma_registered_grows(before.manager.names(), metadata@, i as int + 1);
                assert(metadata@.take(i as int + 1).drop_last() =~= metadata@.take(i as int));
                assert(metadata@.take(i as int + 1).last() == metadata@[i as int]);
            }
            add_attribute_name(&mut self.manager, &attribute);
            self.metadata.set_attribute(token_id, attribute, value);
            i += 1;
        }
        proof {
            assert(metadata@.take(i as int) =~= metadata@);
            assert(self.manager.names() == registered(before.manager.names(), metadata@));
            assert(self.metadata@ == stored(before.metadata@, token_id, metadata@));
            assert(self.manager.attribute_count == self.manager.names().len());
            assert(before.accepts_attributes(caller, token_id));
            assert forall|key: (u64, Seq<u8>)| key.0 != token_id implies (
            #[trigger] self.metadata@.contains_key(key)) == before.metadata@.contains_key(key)
                && (before.metadata@.contains_key(key) ==> self.metadata@[key]
                == before.metadata@[key]) by {
                lemma_stored_keeps_others(before.metadata@, token_id, metadata@, key);
            }
            assert(before.attributes_set_by(caller, token_id, metadata@, *self, Ok(())));
        }
        Ok(())
    }

    /// The texts of the attributes `attributes` of `token_id`, one for each
    /// name and in the order of the names: the stored value decoded, or the
    /// empty text where none is stored.
    pub fn get_attributes(&self, token_id: u64, attributes: Vec<String>) -> (values: Vec<String>)
        requires
            self.wf(),
        ensures
            self.attributes_read(token_id, attributes@, values@),
    {
        let length: usize = attributes.len();
        let mut ret: Vec<String> = Vec::new();
        let mut i: usize = 0;
        while i < length
            invariant
                self.wf(),
                length == attributes@.len(),
                i <= length,
                ret@.len() == i,
                forall|j: int|
                    0 <= j < i ==> (#[trigger] ret@[j])@ == self.attribute_text(
                        token_id,
                        encode_utf8(attributes@[j]@),
                    ),
            decreases length - i,
        {
            let attribute = text_bytes(&attributes[i]);
            let text = match self.metadata.get_attribute(token_id, &attribute) {
                Some(value) => match bytes_text(&value) {
                    Some(text) => text,
                    None => String::new(),
                },
                None => String::new(),
            };
            ret.push(text);
            i += 1;
        }
        ret
    }

    /// How many attribute names are registered.
    pub fn get_attribute_count(&self) -> (count: u32)
        ensures
            count == self.manager.attribute_count,
    {
        self.manager.attribute_count
    }

    /// The attribute name registered under `index`, or the empty text where
    /// there is none: indices count from 1.
    pub fn get_attribute_name(&self, index: u32) -> (name: String)
        requires
            self.wf(),
        ensures
            name@ == self.attribute_name_text(index),
    {
        if index >= 1 && index <= self.manager.attribute_count {
            let position: usize = (index - 1) as usize;
            assert(self.manager.names()[position as int]
                == self.manager.attribute_names[position as int]@);
            match bytes_text(&self.manager.attribute_names[position]) {
                Some(text) => text,
                None => String::new(),
            }
        } else {
            String::new()
        }
    }

    /// The URI of `token_id`: the base URI of the collection, the id in
    /// decimal and `.json`. An error where the collection has no base URI.
    pub fn token_uri(&self, token_id: u64) -> (uri: Result<String, Error>)
        requires
            self.wf(),
        ensures
            uri is Ok <==> self.metadata@.contains_key((SENTINEL_ID, base_uri_key())),
            uri is Ok ==> uri->Ok_0@ == self.attribute_text(SENTINEL_ID, base_uri_key()) + decimal(
                token_id as nat,
            ) + ".json"@,
            uri is Err ==> uri->Err_0.is_custom("Base URI Not Set"@),
    {
        let key = "baseURI".as_bytes_vec();
        match self.metadata.get_attribute(SENTINEL_ID, &key) {
            Some(value) => {
                let base = match bytes_text(&value) {
                    Some(text) => text,
                    None => String::new(),
                };
                let number = decimal_string(token_id);
                Ok(base.concat(number.as_str()).concat(".json"))
            },
            None => Err(Error::Custom(String::from_str("Base URI Not Set"))),
        }
    }

    /// The owner of the contract.
    pub fn get_owner(&self) -> (owner: AccountId)
        ensures
            owner == self.owner,
    {
        self.owner
    }

    /// Sets how many tokens one call may mint, for the owner of the contract.
    pub fn set_max_mint_amount(&mut self, caller: AccountId, max_amount: u64) -> (set: Result<
        (),
        Error,
    >)
        requires
            old(self).wf(),
        ensures
            final(self).wf(),
            set is Ok <==> caller == old(self).owner,
            set is Err ==> set->Err_0 == Error::OwnableError(OwnableError::CallerIsNotOwner)
                && *final(self) == *old(self),
            set is Ok ==> *final(self) == (Psp34Nft {
                manager: Manager { max_amount, ..old(self).manager },
                ..*old(self)
            }),
    {
        match self.only_owner(caller) {
            Err(e) => {
                return Err(e);
            },
            Ok(()) => {},
        }
        self.manager.max_amount = max_amount;
        Ok(())
    }

    /// The most tokens that the collection may ever hold.
    pub fn max_supply(&self) -> (supply: u64)
        ensures
            supply == self.manager.max_supply,
    {
        self.manager.max_supply
    }

    /// The price of one token.
    pub fn price(&self) -> (price: Balance)
        ensures
            price == self.manager.price_per_mint,
    {
        self.manager.price_per_mint
    }

    /// The most tokens that one call may mint.
    pub fn get_max_mint_amount(&mut self) -> (amount: u64)
        ensures
            amount == old(self).manager.max_amount,
            *final(self) == *old(self),
    {
        self.manager.max_amount
    }
}

/// A value that was set is the value that is read: after the pair of `name`
/// and `value` was set for `token_id`, reading `name` of `token_id` gives
/// `value` and nothing else.
pub proof fn lemma_attribute_round_trip(
    before: Psp34Nft,
    after: Psp34Nft,
    caller: AccountId,
    token_id: u64,
    name: String,
    value: String,
    read: Seq<String>,
)
    requires
        before.attributes_set_by(caller, token_id, seq![(name, value)], after, Ok(())),
        after.attributes_read(token_id, seq![name], read),
    ensures
        read.len() == 1,
        read[0]@ == value@,
{
    let pairs = seq![(name, value)];
    assert(pairs.drop_last() =~= Seq::<(String, String)>::empty());
    assert(pairs.last() == (name, value));
    assert(stored(before.metadata@, token_id, pairs.drop_last()) == before.metadata@);
    assert(after.metadata@ == before.metadata@.insert(
        (token_id, encode_utf8(name@)),
        encode_utf8(value@),
    ));
    vstd::utf8::encode_utf8_decode_utf8(value@);
    assert(seq![name][0] == name);
}

/// A locked token keeps its attributes: once `token_id` was locked, setting
/// attributes on it fails and changes nothing, whoever asks; the owner of the
/// contract is told that the token is locked.
pub proof fn lemma_locked_token_keeps_attributes(
    before: Psp34Nft,
    locked: Psp34Nft,
    after: Psp34Nft,
    locker: AccountId,
    token_owner: AccountId,
    token_id: u64,
    caller: AccountId,
    pairs: Seq<(String, String)>,
    result: Result<(), Error>,
)
    requires
        before.locked_by(locker, token_id, token_owner, locked, Ok(())),
        locked.attributes_set_by(caller, token_id, pairs, after, result),
    ensures
        result is Err,
        after == locked,
        after.metadata@ == before.metadata@,
        caller == locked.owner && token_id != SENTINEL_ID ==> result->Err_0.is_custom(
            "Token is locked"@,
        ),
{
    assert(locked.manager.is_locked(token_id));
}

/// A lock is for good: setting attributes and locking, of this token or of
/// another, leave a locked token locked.
pub proof fn lemma_lock_is_for_good(
    before: Psp34Nft,
    after: Psp34Nft,
    locked_id: u64,
    caller: AccountId,
    token_id: u64,
    token_owner: AccountId,
    pairs: Seq<(String, String)>,
    result: Result<(), Error>,
)
    requires
        before.manager.is_locked(locked_id),
        before.locked_by(caller, token_id, token_owner, after, result)
            || before.attributes_set_by(caller, token_id, pairs, after, result),
    ensures
        after.manager.is_locked(locked_id),
{
}

/// A name is registered once: when a second call sets an attribute of a name
/// that an earlier call has set, the registry and its count stay as they were.
pub proof fn lemma_name_registered_once(
    before: Psp34Nft,
    between: Psp34Nft,
    after: Psp34Nft,
    first_caller: AccountId,
    first_token: u64,
    first_value: String,
    second_caller: AccountId,
    second_token: u64,
    second_value: String,
    name: String,
)
    requires
        before.attributes_set_by(
            first_caller,
            first_token,
            seq![(name, first_value)],
            between,
            Ok(()),
        ),
        between.attributes_set_by(
            second_caller,
            second_token,
            seq![(name, second_value)],
            after,
            Ok(()),
        ),
    ensures
        after.manager.attribute_count == between.manager.attribute_count,
        after.manager.names() == between.manager.names(),
{
    let first = seq![(name, first_value)];
    let second = seq![(name, second_value)];
    let bytes = encode_utf8(name@);
    assert(first.drop_last() =~= Seq::<(String, String)>::empty());
    assert(second.drop_last() =~= Seq::<(String, String)>::empty());
    assert(first.last() == (name, first_value));
    assert(second.last() == (name, second_value));
    assert(registered(before.manager.names(), first.drop_last()) == before.manager.names());
    assert(registered(between.manager.names(), second.drop_last()) == between.manager.names());
    if before.manager.names().contains(bytes) {
    } else {
        let names = before.manager.names().push(bytes);
        assert(names[names.len() - 1] == bytes);
        assert(names.contains(bytes));
    }
    assert(between.manager.names().contains(bytes));
}

} // verus!
