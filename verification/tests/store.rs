use substratekitties::bounded::MAX_KITTIES_OWNED;
use substratekitties::{Dna, Error, Gender, Kitty, RegistryStore};

fn dna(n: u8) -> Dna {
    let mut id = [0x11u8; 32];
    id[0] = n;
    id
}

fn kitty(n: u8, owner: u64) -> Kitty {
    Kitty::new(dna(n), owner)
}

#[test]
fn empty_store_holds_nothing() {
    let store = RegistryStore::new();
    assert_eq!(store.get_asset(&dna(1)), None);
    assert!(!store.asset_exists(&dna(1)));
    assert_eq!(store.owner_list(1), Vec::<Dna>::new());
    assert_eq!(store.owned_count(1), 0);
    assert_eq!(store.total_count(), 0);
}

#[test]
fn put_then_get() {
    let mut store = RegistryStore::new();
    store.put_asset(dna(1), kitty(1, 5));
    store.put_asset(dna(2), kitty(2, 6));
    assert!(store.asset_exists(&dna(1)));
    assert!(store.asset_exists(&dna(2)));
    assert!(!store.asset_exists(&dna(3)));
    assert_eq!(store.get_asset(&dna(1)), Some(kitty(1, 5)));
    assert_eq!(store.get_asset(&dna(2)), Some(kitty(2, 6)));
    assert_eq!(store.get_asset(&dna(3)), None);
    // Storing a kitty touches neither the lists nor the count.
    assert_eq!(store.owner_list(5), Vec::<Dna>::new());
    assert_eq!(store.total_count(), 0);
}

#[test]
fn put_replaces_what_was_stored() {
    let mut store = RegistryStore::new();
    store.put_asset(dna(1), kitty(1, 5));
    store.put_asset(dna(2), kitty(2, 6));
    let changed = Kitty { dna: dna(1), price: Some(77), gender: Gender::Female, owner: 9 };
    store.put_asset(dna(1), changed);
    assert_eq!(store.get_asset(&dna(1)), Some(changed));
    assert_eq!(store.get_asset(&dna(2)), Some(kitty(2, 6)));
}

#[test]
fn append_keeps_the_order_of_arrival() {
    let mut store = RegistryStore::new();
    assert_eq!(store.append_to_owner(1, dna(3)), Ok(()));
    assert_eq!(store.append_to_owner(1, dna(1)), Ok(()));
    assert_eq!(store.append_to_owner(2, dna(9)), Ok(()));
    assert_eq!(store.append_to_owner(1, dna(2)), Ok(()));
    assert_eq!(store.owner_list(1), vec![dna(3), dna(1), dna(2)]);
    assert_eq!(store.owner_list(2), vec![dna(9)]);
    assert_eq!(store.owned_count(1), 3);
    assert_eq!(store.owned_count(2), 1);
    assert_eq!(store.owned_count(3), 0);
}

#[test]
fn append_to_full_list_is_rejected() {
    let mut store = RegistryStore::new();
    for n in 0..MAX_KITTIES_OWNED {
        assert_eq!(store.append_to_owner(1, dna(n as u8)), Ok(()));
    }
    let before = store.owner_list(1);
    assert_eq!(before.len(), MAX_KITTIES_OWNED as usize);
    assert_eq!(store.append_to_owner(1, dna(200)), Err(Error::TooManyOwned));
    assert_eq!(store.owner_list(1), before);
    assert_eq!(store.owned_count(1), MAX_KITTIES_OWNED as usize);
    assert_eq!(store.append_to_owner(2, dna(200)), Ok(()));
}

#[test]
fn remove_swaps_in_the_last() {
    let mut store = RegistryStore::new();
    for n in 0..5u8 {
        assert_eq!(store.append_to_owner(1, dna(n)), Ok(()));
    }
    assert_eq!(store.remove_from_owner(1, dna(1)), Ok(()));
    assert_eq!(store.owner_list(1), vec![dna(0), dna(4), dna(2), dna(3)]);
    assert_eq!(store.remove_from_owner(1, dna(0)), Ok(()));
    assert_eq!(store.owner_list(1), vec![dna(3), dna(4), dna(2)]);
    assert_eq!(store.remove_from_owner(1, dna(2)), Ok(()));
    assert_eq!(store.owner_list(1), vec![dna(3), dna(4)]);
    assert_eq!(store.remove_from_owner(1, dna(3)), Ok(()));
    assert_eq!(store.owner_list(1), vec![dna(4)]);
    assert_eq!(store.remove_from_owner(1, dna(4)), Ok(()));
    assert_eq!(store.owner_list(1), Vec::<Dna>::new());
    assert_eq!(store.owned_count(1), 0);
}

#[test]
fn remove_takes_the_first_of_a_repeated_identifier() {
    let mut store = RegistryStore::new();
    for n in [1u8, 2, 1, 3] {
        assert_eq!(store.append_to_owner(1, dna(n)), Ok(()));
    }
    assert_eq!(store.remove_from_owner(1, dna(1)), Ok(()));
    assert_eq!(store.owner_list(1), vec![dna(3), dna(2), dna(1)]);
}

#[test]
fn remove_of_absent_identifier_is_rejected() {
    let mut store = RegistryStore::new();
    assert_eq!(store.remove_from_owner(1, dna(1)), Err(Error::NoKitty));
    assert_eq!(store.append_to_owner(1, dna(1)), Ok(()));
    assert_eq!(store.append_to_owner(2, dna(2)), Ok(()));
    assert_eq!(store.remove_from_owner(1, dna(2)), Err(Error::NoKitty));
    assert_eq!(store.remove_from_owner(3, dna(1)), Err(Error::NoKitty));
    assert_eq!(store.owner_list(1), vec![dna(1)]);
    assert_eq!(store.owner_list(2), vec![dna(2)]);
}

#[test]
fn list_can_be_refilled_after_removal() {
    let mut store = RegistryStore::new();
    for n in 0..MAX_KITTIES_OWNED {
        assert_eq!(store.append_to_owner(1, dna(n as u8)), Ok(()));
    }
    assert_eq!(store.remove_from_owner(1, dna(0)), Ok(()));
    assert_eq!(store.append_to_owner(1, dna(200)), Ok(()));
    assert_eq!(store.append_to_owner(1, dna(201)), Err(Error::TooManyOwned));
    let list = store.owner_list(1);
    assert_eq!(list[0], dna((MAX_KITTIES_OWNED - 1) as u8));
    assert_eq!(list[list.len() - 1], dna(200));
}

#[test]
fn count_goes_up_by_one() {
    let mut store = RegistryStore::new();
    assert_eq!(store.increment_total_count(), Ok(()));
    assert_eq!(store.increment_total_count(), Ok(()));
    assert_eq!(store.total_count(), 2);
    assert_eq!(store.get_asset(&dna(0)), None);
}

#[test]
fn count_does_not_wrap() {
    let mut store = RegistryStore::with_total_count(u64::MAX - 1);
    assert_eq!(store.total_count(), u64::MAX - 1);
    assert_eq!(store.increment_total_count(), Ok(()));
    assert_eq!(store.total_count(), u64::MAX);
    assert_eq!(store.increment_total_count(), Err(Error::Overflow));
    assert_eq!(store.total_count(), u64::MAX);
}
