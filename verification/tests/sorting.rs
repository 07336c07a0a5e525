use hypermon::helpers::sort_by_stake;
use hypermon::types::Validator;

fn validator(address: &str, stake: u64) -> Validator {
    Validator {
        validator: address.to_string(),
        name: String::new(),
        description: String::new(),
        n_recent_blocks: 0,
        stake,
        is_jailed: false,
    }
}

fn addresses(validators: &[Validator]) -> Vec<&str> {
    validators.iter().map(|v| v.validator.as_str()).collect()
}

#[test]
fn sorts_by_descending_stake() {
    let sorted = sort_by_stake(vec![
        validator("a", 5),
        validator("b", 90),
        validator("c", 0),
        validator("d", u64::MAX),
        validator("e", 17),
    ]);
    assert_eq!(addresses(&sorted), vec!["d", "b", "e", "a", "c"]);
}

#[test]
fn equal_stakes_keep_their_order() {
    let sorted = sort_by_stake(vec![
        validator("a", 5),
        validator("b", 9),
        validator("c", 5),
        validator("d", 9),
        validator("e", 5),
    ]);
    assert_eq!(addresses(&sorted), vec!["b", "d", "a", "c", "e"]);
}

#[test]
fn short_lists_are_sorted_too() {
    assert!(sort_by_stake(Vec::new()).is_empty());
    assert_eq!(addresses(&sort_by_stake(vec![validator("a", 1)])), vec!["a"]);
    assert_eq!(
        addresses(&sort_by_stake(vec![validator("a", 1), validator("b", 2)])),
        vec!["b", "a"]
    );
}
