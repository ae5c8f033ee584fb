use sprite_walker::lookup::{single, MissingSingleton};

#[test]
fn single_item_is_handed_out() {
    assert_eq!(single(vec![7u32]), Ok(7));
    assert_eq!(single(vec![String::from("player")]), Ok(String::from("player")));
}

#[test]
fn no_item_is_missing_singleton() {
    assert_eq!(single(Vec::<u32>::new()), Err(MissingSingleton { found: 0 }));
}

#[test]
fn several_items_are_missing_singleton() {
    assert_eq!(single(vec![1u8, 2]), Err(MissingSingleton { found: 2 }));
    assert_eq!(single(vec![1u8, 2, 3]), Err(MissingSingleton { found: 3 }));
}
