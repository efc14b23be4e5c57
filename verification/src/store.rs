//! The registry's storage: the table of kitties, the list of each account,
//! and the count of kitties minted.

use std::collections::HashMap;
use vstd::prelude::*;

use crate::bounded::{
    owned_ids, owned_list_as_slice, owned_list_new, owned_list_swap_remove, owned_list_try_push,
    OwnedList, MAX_KITTIES_OWNED,
};
use crate::model::{first_index, is_first_index, swap_removed, Registry};
use crate::types::{dna_eq, AccountId, Dna, Error, Kitty};

verus! {

broadcast use vstd::std_specs::hash::group_hash_axioms;

/// One record of the table: a kitty under the identifier it was stored with.
struct Slot {
    id: Dna,
    kitty: Kitty,
}

/// The storage of a registry. Its view is the [`Registry`] it holds.
pub struct RegistryStore {
    /// The kitties, each identifier at most once.
    slots: Vec<Slot>,
    /// The lists of the accounts that ever held a kitty.
    owned: HashMap<AccountId, OwnedList>,
    /// How many kitties were minted.
    count: u64,
}

/// Some record of `slots` is stored under `id`.
spec fn holds(slots: Seq<Slot>, id: Dna) -> bool {
    exists|i: int| 0 <= i < slots.len() && (#[trigger] slots[i]).id == id
}

/// The place of the record that is stored under `id`.
spec fn place(slots: Seq<Slot>, id: Dna) -> int {
    choose|i: int| 0 <= i < slots.len() && (#[trigger] slots[i]).id == id
}

/// No two records are stored under one identifier.
spec fn distinct(slots: Seq<Slot>) -> bool {
    forall|i: int, j: int|
        0 <= i < j < slots.len() ==> (#[trigger] slots[i]).id != (#[trigger] slots[j]).id
}

/// The records as a map from identifier to kitty.
spec fn table(slots: Seq<Slot>) -> Map<Dna, Kitty> {
    Map::new(|id: Dna| holds(slots, id), |id: Dna| slots[place(slots, id)].kitty)
}

/// The list of `who`; empty where `who` has none yet.
spec fn listed(owned: Map<AccountId, OwnedList>, who: AccountId) -> Seq<Dna> {
    if owned.contains_key(who) {
        owned_ids(owned[who])
    } else {
        Seq::empty()
    }
}

/// The lists of all accounts.
spec fn lists(owned: Map<AccountId, OwnedList>) -> Map<AccountId, Seq<Dna>> {
    Map::total(|who: AccountId| listed(owned, who))
}

/// The record at `at` is the one that the table shows under its identifier.
proof fn lemma_table_at(slots: Seq<Slot>, at: int)
    requires
        distinct(slots),
        0 <= at < slots.len(),
    ensures
        table(slots).contains_key(slots[at].id),
        table(slots)[slots[at].id] == slots[at].kitty,
        place(slots, slots[at].id) == at,
{
}

/// A record under a new identifier, put at the end, is an insertion into the
/// table.
proof fn lemma_table_push(slots: Seq<Slot>, slot: Slot)
    requires
        distinct(slots),
        !holds(slots, slot.id),
    ensures
        distinct(slots.push(slot)),
        table(slots.push(slot)) == table(slots).insert(slot.id, slot.kitty),
{
    let longer = slots.push(slot);
    assert forall|id: Dna| holds(longer, id) <==> (holds(slots, id) || id == slot.id) by {
        if holds(slots, id) {
            assert(longer[place(slots, id)].id == id);
        }
        if id == slot.id {
            assert(longer[slots.len() as int].id == id);
        }
    }
    assert forall|id: Dna| holds(longer, id) implies #[trigger] table(longer)[id] == table(
        slots,
    ).insert(slot.id, slot.kitty)[id] by {
        let i = place(longer, id);
        lemma_table_at(longer, i);
        if i < slots.len() {
            lemma_table_at(slots, i);
        }
    }
}

/// A new kitty in the place of a record, under the same identifier, is an
/// update of the table.
proof fn lemma_table_update(slots: Seq<Slot>, at: int, kitty: Kitty)
    requires
        distinct(slots),
        0 <= at < slots.len(),
    ensures
        distinct(slots.update(at, Slot { id: slots[at].id, kitty })),
        table(slots.update(at, Slot { id: slots[at].id, kitty })) == table(slots).insert(
            slots[at].id,
            kitty,
        ),
{
    let changed = slots.update(at, Slot { id: slots[at].id, kitty });
    assert forall|id: Dna| holds(changed, id) <==> holds(slots, id) by {
        if holds(slots, id) {
            assert(changed[place(slots, id)].id == id);
        }
    }
    assert forall|id: Dna| holds(changed, id) implies #[trigger] table(changed)[id] == table(
        slots,
    ).insert(slots[at].id, kitty)[id] by {
        let i = place(changed, id);
        lemma_table_at(changed, i);
        lemma_table_at(slots, i);
    }
}

/// The first place of `id` in `ids`, if it stands there.
fn position(ids: &[Dna], id: &Dna) -> (found: Option<usize>)
    ensures
        match found {
            Some(at) => is_first_index(ids@, *id, at as int),
            None => !ids@.contains(*id),
        },
{
    let mut i: usize = 0;
    while i < ids.len()
        invariant
            i <= ids.len(),
            forall|j: int| 0 <= j < i ==> ids@[j] != *id,
        decreases ids.len() - i,
    {
        if dna_eq(&ids[i], id) {
            return Some(i);
        }
        i += 1;
    }
    None
}

impl View for RegistryStore {
    type V = Registry;

    closed spec fn view(&self) -> Registry {
        Registry {
            kitties: table(self.slots@),
            kitties_owned: lists(self.owned@),
            count: self.count as nat,
        }
    }
}

impl RegistryStore {
    /// The store keeps each identifier at most once in its table.
    pub closed spec fn inv(&self) -> bool {
        distinct(self.slots@)
    }

    /// A store that holds nothing.
    pub fn new() -> (store: RegistryStore)
        ensures
            store.inv(),
            store@ == Registry::empty(),
    {
        RegistryStore { slots: Vec::new(), owned: HashMap::new(), count: 0 }
    }

    /// A store that holds no kitty and has counted `count` of them.
    pub fn with_total_count(count: u64) -> (store: RegistryStore)
        ensures
            store.inv(),
            store@ == (Registry { count: count as nat, ..Registry::empty() }),
    {
        RegistryStore { slots: Vec::new(), owned: HashMap::new(), count }
    }

    /// The place in the table of the record stored under `id`.
    fn find(&self, id: &Dna) -> (found: Option<usize>)
        ensures
            match found {
                Some(at) => at < self.slots@.len() && self.slots@[at as int].id == *id,
                None => !holds(self.slots@, *id),
            },
    {
        let mut i: usize = 0;
        while i < self.slots.len()
            invariant
                i <= self.slots@.len(),
                forall|j: int| 0 <= j < i ==> (#[trigger] self.slots@[j]).id != *id,
            decreases self.slots@.len() - i,
        {
            if dna_eq(&self.slots[i].id, id) {
                return Some(i);
            }
            i += 1;
        }
        None
    }

    /// The kitty stored under `id`, if there is one.
    pub fn get_asset(&self, id: &Dna) -> (kitty: Option<Kitty>)
        requires
            self.inv(),
        ensures
            kitty == if self@.kitties.contains_key(*id) {
                Some(self@.kitties[*id])
            } else {
                None
            },
    {
        match self.find(id) {
            Some(at) => {
                proof {
                    lemma_table_at(self.slots@, at as int);
                }
                Some(self.slots[at].kitty)
            },
            None => None,
        }
    }

    /// Whether a kitty is stored under `id`.
    pub fn asset_exists(&self, id: &Dna) -> (exists: bool)
        requires
            self.inv(),
        ensures
            exists == self@.kitties.contains_key(*id),
    {
        match self.find(id) {
            Some(at) => {
                proof {
                    lemma_table_at(self.slots@, at as int);
                }
                true
            },
            None => false,
        }
    }

    /// Stores `kitty` under `id`, in place of what was stored there.
    pub fn put_asset(&mut self, id: Dna, kitty: Kitty)
        requires
            old(self).inv(),
        ensures
            final(self).inv(),
            final(self)@ == (Registry { kitties: old(self)@.kitties.insert(id, kitty), ..old(self)@ }),
    {
        match self.find(&id) {
            Some(at) => {
                proof {
                    lemma_table_update(self.slots@, at as int, kitty);
                }
                self.slots[at] = Slot { id, kitty };
            },
            None => {
                proof {
                    lemma_table_push(self.slots@, Slot { id, kitty });
                }
                self.slots.push(Slot { id, kitty });
            },
        }
    }

    /// How many kitties `who` holds.
    pub fn owned_count(&self, who: AccountId) -> (n: usize)
        ensures
            n == self@.kitties_owned[who].len(),
    {
        match self.owned.get(&who) {
            Some(list) => owned_list_as_slice(list).len(),
            None => 0,
        }
    }

    /// The kitties `who` holds, in the order of the list.
    pub fn owner_list(&self, who: AccountId) -> (ids: Vec<Dna>)
        ensures
            ids@ == self@.kitties_owned[who],
    {
        let mut ids: Vec<Dna> = Vec::new();
        match self.owned.get(&who) {
            Some(list) => {
                let held = owned_list_as_slice(list);
                let mut i: usize = 0;
                while i < held.len()
                    invariant
                        i <= held@.len(),
                        ids@ == held@.take(i as int),
                    decreases held@.len() - i,
                {
                    ids.push(held[i]);
                    i += 1;
                }
            },
            None => {},
        }
        ids
    }

    /// Puts `id` at the end of the list of `who`. A list that is full stays
    /// as it is, and the call fails with `TooManyOwned`.
    pub fn append_to_owner(&mut self, who: AccountId, id: Dna) -> (done: Result<(), Error>)
        requires
            old(self).inv(),
        ensures
            final(self).inv(),
            old(self)@.kitties_owned[who].len() < MAX_KITTIES_OWNED ==> done is Ok && final(self)@
                == (Registry {
                kitties_owned: old(self)@.kitties_owned.insert(
                    who,
                    old(self)@.kitties_owned[who].push(id),
                ),
                ..old(self)@
            }),
            old(self)@.kitties_owned[who].len() >= MAX_KITTIES_OWNED ==> done == Err::<(), Error>(
                Error::TooManyOwned,
            ) && final(self)@ == old(self)@,
    {
        let mut list = match self.owned.remove(&who) {
            Some(list) => list,
            None => owned_list_new(),
        };
        let pushed = owned_list_try_push(&mut list, id);
        self.owned.insert(who, list);
        match pushed {
            Ok(_) => {
                assert(self@.kitties_owned =~= old(self)@.kitties_owned.insert(
                    who,
                    old(self)@.kitties_owned[who].push(id),
                ));
                Ok(())
            },
            Err(_) => Err(Error::TooManyOwned),
        }
    }

    /// Takes the first `id` out of the list of `who`; the last identifier of
    /// the list moves into its place. Fails with `NoKitty`, and changes
    /// nothing, where the list does not hold `id`.
    pub fn remove_from_owner(&mut self, who: AccountId, id: Dna) -> (done: Result<(), Error>)
        requires
            old(self).inv(),
        ensures
            final(self).inv(),
            old(self)@.kitties_owned[who].contains(id) ==> done is Ok && final(self)@ == (Registry {
                kitties_owned: old(self)@.kitties_owned.insert(
                    who,
                    swap_removed(old(self)@.kitties_owned[who], id),
                ),
                ..old(self)@
            }),
            !old(self)@.kitties_owned[who].contains(id) ==> done == Err::<(), Error>(
                Error::NoKitty,
            ) && final(self)@ == old(self)@,
    {
        let mut list = match self.owned.remove(&who) {
            Some(list) => list,
            None => {
                return Err(Error::NoKitty);
            },
        };
        let done = match position(owned_list_as_slice(&list), &id) {
            Some(at) => {
                owned_list_swap_remove(&mut list, at);
                Ok(())
            },
            None => Err(Error::NoKitty),
        };
        self.owned.insert(who, list);
        assert(self@.kitties_owned =~= if done is Ok {
            old(self)@.kitties_owned.insert(who, swap_removed(old(self)@.kitties_owned[who], id))
        } else {
            old(self)@.kitties_owned
        });
        done
    }

    /// How many kitties were minted.
    pub fn total_count(&self) -> (count: u64)
        ensures
            count == self@.count,
    {
        self.count
    }

    /// Counts one more kitty. Fails with `Overflow`, and changes nothing,
    /// where the count cannot grow.
    pub fn increment_total_count(&mut self) -> (done: Result<(), Error>)
        requires
            old(self).inv(),
        ensures
            final(self).inv(),
            old(self)@.count < u64::MAX ==> done is Ok && final(self)@ == (Registry {
                count: old(self)@.count + 1,
                ..old(self)@
            }),
            old(self)@.count >= u64::MAX ==> done == Err::<(), Error>(Error::Overflow)
                && final(self)@ == old(self)@,
    {
        match self.count.checked_add(1) {
            Some(count) => {
                self.count = count;
                Ok(())
            },
            None => Err(Error::Overflow),
        }
    }
}

} // verus!
