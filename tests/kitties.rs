use kitties::{Entropy, Error, Event, Kitty, KittyGender, Pallet};

fn entropy(seed: u8) -> Entropy {
    Entropy { random_seed: [seed; 32], extrinsic_index: Some(0) }
}

fn new_pallet() -> Pallet {
    Pallet::new(1).unwrap()
}

#[test]
fn can_create() {
    let mut pallet = new_pallet();
    let event = pallet.create(100, &entropy(0));

    let kitty = Kitty([59, 250, 138, 82, 209, 39, 141, 109, 163, 238, 183, 145, 235, 168, 18, 122]);

    assert_eq!(event, Ok(Event::KittyCreated(100, 0, kitty)));
    assert_eq!(pallet.kitties(100, 0), Some(kitty.clone()));
    assert_eq!(pallet.tokens(0).unwrap().owner, 100);
}

#[test]
fn gender() {
    assert_eq!(Kitty([0; 16]).gender(), KittyGender::Male);
    assert_eq!(Kitty([1, 0, 0, 0, 0, 0, 0, 0, 0, 0, 0, 0, 0, 0, 0, 0]).gender(), KittyGender::Female);
}

#[test]
fn can_breed() {
    let mut pallet = new_pallet();
    assert!(pallet.create(100, &entropy(0)).is_ok());
    assert!(pallet.create(100, &entropy(2)).is_ok());

    assert_eq!(pallet.breed(100, 0, 11, &entropy(2)), Err(Error::InvalidKittyId));
    assert_eq!(pallet.breed(100, 0, 0, &entropy(2)), Err(Error::SameGender));
    assert_eq!(pallet.breed(101, 0, 1, &entropy(2)), Err(Error::InvalidKittyId));
    assert_eq!(pallet.next_token_id(), 2);

    let event = pallet.breed(100, 0, 1, &entropy(2));

    let kitty = Kitty([187, 250, 235, 118, 211, 247, 237, 253, 187, 239, 191, 185, 239, 171, 211, 122]);

    assert_eq!(pallet.kitties(100, 2), Some(kitty.clone()));
    assert_eq!(pallet.tokens(2).unwrap().owner, 100);
    assert_eq!(event, Ok(Event::KittyBred(100u64, 2u32, kitty)));
}
