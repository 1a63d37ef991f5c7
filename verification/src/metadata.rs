//! The attribute values of a collection: one byte string for each pair of a
//! token id and an attribute name.

use vstd::prelude::*;
use vstd::utf8::valid_utf8;
use crate::text::{bytes_text, copy_bytes, same_bytes};

verus! {

/// One stored attribute value.
#[derive(Debug, PartialEq, Eq)]
pub struct Attribute {
    pub token_id: u64,
    pub name: Vec<u8>,
    pub value: Vec<u8>,
}

impl Attribute {
    /// Whether this is the entry for `name` on `token_id`.
    pub open spec fn has_key(self, token_id: u64, name: Seq<u8>) -> bool {
        self.token_id == token_id && self.name@ == name
    }
}

/// The attribute values, in the order in which their keys were first set.
#[derive(Debug, PartialEq, Eq)]
pub struct Metadata {
    pub attributes: Vec<Attribute>,
}

impl View for Metadata {
    type V = Map<(u64, Seq<u8>), Seq<u8>>;

    /// The stored values by token id and attribute name.
    open spec fn view(&self) -> Map<(u64, Seq<u8>), Seq<u8>> {
        Map::new(
            |key: (u64, Seq<u8>)| self.has(key.0, key.1),
            |key: (u64, Seq<u8>)| self.attributes[self.index_of(key.0, key.1)].value@,
        )
    }
}

impl Metadata {
    /// Whether entry `i` is the one for `name` on `token_id`.
    pub open spec fn holds_at(&self, i: int, token_id: u64, name: Seq<u8>) -> bool {
        0 <= i < self.attributes.len() && self.attributes[i].has_key(token_id, name)
    }

    /// Whether a value is stored for `name` on `token_id`.
    pub open spec fn has(&self, token_id: u64, name: Seq<u8>) -> bool {
        exists|i: int| self.holds_at(i, token_id, name)
    }

    /// The position of the entry for `name` on `token_id`, where there is one.
    pub open spec fn index_of(&self, token_id: u64, name: Seq<u8>) -> int {
        choose|i: int| self.holds_at(i, token_id, name)
    }

    /// Whether entries `i` and `j` have the same key.
    pub open spec fn same_key(&self, i: int, j: int) -> bool {
        self.attributes[i].has_key(self.attributes[j].token_id, self.attributes[j].name@)
    }

    /// No key has two entries.
    pub open spec fn wf(&self) -> bool {
        forall|i: int, j: int|
            0 <= i < j < self.attributes.len() ==> !#[trigger] self.same_key(i, j)
    }

    /// Whether every stored value is text in UTF-8.
    pub open spec fn is_text(&self) -> bool {
        forall|key: (u64, Seq<u8>)|
            self@.contains_key(key) ==> valid_utf8(#[trigger] self@[key])
    }

    /// In a well-formed store, the entry of a key is found at one position only.
    pub proof fn lemma_index_unique(&self, i: int, token_id: u64, name: Seq<u8>)
        requires
            self.wf(),
            self.holds_at(i, token_id, name),
        ensures
            self.has(token_id, name),
            self.index_of(token_id, name) == i,
            self@.contains_key((token_id, name)),
            self@[(token_id, name)] == self.attributes[i].value@,
    {
        let j = self.index_of(token_id, name);
        assert(self.holds_at(j, token_id, name));
        if i < j {
            assert(!self.same_key(i, j));
        } else if j < i {
            assert(!self.same_key(j, i));
        }
    }

    /// A store with no values.
    pub fn new() -> (store: Metadata)
        ensures
            store.wf(),
            store@ == Map::<(u64, Seq<u8>), Seq<u8>>::empty(),
            store.attributes@.len() == 0,
    {
        let store = Metadata { attributes: Vec::new() };
        assert(store@ =~= Map::<(u64, Seq<u8>), Seq<u8>>::empty());
        store
    }

    /// The position of the entry for `name` on `token_id`.
    fn position(&self, token_id: u64, name: &Vec<u8>) -> (found: Option<usize>)
        ensures
            match found {
                Some(i) => self.holds_at(i as int, token_id, name@),
                None => !self.has(token_id, name@),
            },
    {
        let mut i: usize = 0;
        while i < self.attributes.len()
            invariant
                i <= self.attributes.len(),
                forall|j: int| 0 <= j < i ==> !self.holds_at(j, token_id, name@),
            decreases self.attributes.len() - i,
        {
            if self.attributes[i].token_id == token_id && same_bytes(
                &self.attributes[i].name,
                name,
            ) {
                return Some(i);
            }
            i += 1;
        }
        None
    }

    /// The value stored for `name` on `token_id`, if any.
    pub fn get_attribute(&self, token_id: u64, name: &Vec<u8>) -> (value: Option<Vec<u8>>)
        requires
            self.wf(),
        ensures
            value is Some <==> self@.contains_key((token_id, name@)),
            value is Some ==> value->0@ == self@[(token_id, name@)],
    {
        match self.position(token_id, name) {
            Some(i) => {
                proof {
                    self.lemma_index_unique(i as int, token_id, name@);
                }
                Some(copy_bytes(&self.attributes[i].value))
            },
            None => None,
        }
    }

    /// Stores `value` for `name` on `token_id`, in place of the value that the
    /// key had, if it had one.
    pub fn set_attribute(&mut self, token_id: u64, name: Vec<u8>, value: Vec<u8>)
        requires
            old(self).wf(),
        ensures
            final(self).wf(),
            final(self)@ == old(self)@.insert((token_id, name@), value@),
    {
        let ghost before = *self;
        match self.position(token_id, &name) {
            Some(i) => {
                let entry = Attribute { token_id, name, value };
                self.attributes[i] = entry;
                proof {
                    let after = *self;
                    assert forall|j: int, id: u64, key: Seq<u8>|
                        after.holds_at(j, id, key) == before.holds_at(j, id, key) by {}
                    assert forall|a: int, b: int|
                        0 <= a < b < after.attributes.len() implies !#[trigger] after.same_key(
                        a,
                        b,
                    ) by {
                        assert(!before.same_key(a, b));
                    }
                    assert(after.wf());
                    assert forall|key: (u64, Seq<u8>)|
                        #[trigger] after@.contains_key(key) == before@.insert(
                            (token_id, name@),
                            value@,
                        ).contains_key(key) by {
                        if before.has(key.0, key.1) {
                            let j = before.index_of(key.0, key.1);
                            assert(after.holds_at(j, key.0, key.1));
                        }
                        if after.has(key.0, key.1) {
                            let j = after.index_of(key.0, key.1);
                            assert(before.holds_at(j, key.0, key.1));
                        }
                        before.lemma_index_unique(i as int, token_id, name@);
                    }
                    assert forall|key: (u64, Seq<u8>)| #[trigger]
                        after@.contains_key(key) implies after@[key] == before@.insert(
                        (token_id, name@),
                        value@,
                    )[key] by {
                        let j = after.index_of(key.0, key.1);
                        assert(after.holds_at(j, key.0, key.1));
                        after.lemma_index_unique(j, key.0, key.1);
                        assert(before.holds_at(j, key.0, key.1));
                        before.lemma_index_unique(j, key.0, key.1);
                        if key == (token_id, name@) {
                            after.lemma_index_unique(i as int, token_id, name@);
                        } else {
                            assert(j != i);
                        }
                    }
                    assert(after@ =~= before@.insert((token_id, name@), value@));
                }
            },
            None => {
                let entry = Attribute { token_id, name, value };
                self.attributes.push(entry);
                proof {
                    let after = *self;
                    let n = before.attributes.len() as int;
                    assert forall|j: int, id: u64, key: Seq<u8>| 0 <= j < n implies after.holds_at(
                        j,
                        id,
                        key,
                    ) == before.holds_at(j, id, key) by {}
                    assert(after.holds_at(n, token_id, name@));
                    assert forall|i: int, j: int|
                        0 <= i < j < after.attributes.len() implies !#[trigger] after.same_key(
                        i,
                        j,
                    ) by {
                        if j < n {
                            assert(!before.same_key(i, j));
                        } else {
                            assert(!before.holds_at(i, token_id, name@));
                        }
                    }
                    assert(after.wf());
                    after.lemma_index_unique(n, token_id, name@);
                    assert forall|key: (u64, Seq<u8>)|
                        #[trigger] after@.contains_key(key) == before@.insert(
                            (token_id, name@),
                            value@,
                        ).contains_key(key) by {
                        if before.has(key.0, key.1) {
                            let j = before.index_of(key.0, key.1);
                            assert(after.holds_at(j, key.0, key.1));
                        }
                        if after.has(key.0, key.1) {
                            let j = after.index_of(key.0, key.1);
                            if j < n {
                                assert(before.holds_at(j, key.0, key.1));
                            }
                        }
                    }
                    assert forall|key: (u64, Seq<u8>)| #[trigger]
                        after@.contains_key(key) implies after@[key] == before@.insert(
                        (token_id, name@),
                        value@,
                    )[key] by {
                        let j = after.index_of(key.0, key.1);
                        assert(after.holds_at(j, key.0, key.1));
                        after.lemma_index_unique(j, key.0, key.1);
                        if key != (token_id, name@) {
                            assert(j < n);
                            assert(before.holds_at(j, key.0, key.1));
                            before.lemma_index_unique(j, key.0, key.1);
                        }
                    }
                    assert(after@ =~= before@.insert((token_id, name@), value@));
                }
            },
        }
    }

    /// Tests whether the store is well formed.
    pub fn is_wf(&self) -> (ok: bool)
        ensures
            ok == self.wf(),
    {
        let mut j: usize = 0;
        while j < self.attributes.len()
            invariant
                j <= self.attributes.len(),
                forall|a: int, b: int| 0 <= a < b < j ==> !#[trigger] self.same_key(a, b),
            decreases self.attributes.len() - j,
        {
            let mut i: usize = 0;
            while i < j
                invariant
                    i <= j < self.attributes.len(),
                    forall|a: int| 0 <= a < i ==> !#[trigger] self.same_key(a, j as int),
                decreases j - i,
            {
                if self.attributes[i].token_id == self.attributes[j].token_id && same_bytes(
                    &self.attributes[i].name,
                    &self.attributes[j].name,
                ) {
                    assert(self.same_key(i as int, j as int));
                    return false;
                }
                i += 1;
            }
            j += 1;
        }
        true
    }

    /// Tests, in a well-formed store, whether every stored value is text.
    pub fn holds_text(&self) -> (ok: bool)
        requires
            self.wf(),
        ensures
            ok == self.is_text(),
    {
        let mut i: usize = 0;
        while i < self.attributes.len()
            invariant
                self.wf(),
                i <= self.attributes.len(),
                forall|a: int| 0 <= a < i ==> valid_utf8(#[trigger] self.attributes[a].value@),
            decreases self.attributes.len() - i,
        {
            if bytes_text(&self.attributes[i].value).is_none() {
                proof {
                    let entry = self.attributes[i as int];
                    assert(self.holds_at(i as int, entry.token_id, entry.name@));
                    self.lemma_index_unique(i as int, entry.token_id, entry.name@);
                    assert(!valid_utf8(self@[(entry.token_id, entry.name@)]));
                }
                return false;
            }
            i += 1;
        }
        proof {
            assert forall|key: (u64, Seq<u8>)| self@.contains_key(key) implies valid_utf8(
                #[trigger] self@[key],
            ) by {
                let a = self.index_of(key.0, key.1);
                assert(self.holds_at(a, key.0, key.1));
            }
        }
        true
    }
}

} // verus!
