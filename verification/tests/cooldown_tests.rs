use botshop::cooldown::{cooldown_remaining, CooldownBook};

#[test]
fn remaining_time() {
    assert_eq!(cooldown_remaining(0), Some(20_000_000_000));
    assert_eq!(cooldown_remaining(5_000_000_000), Some(15_000_000_000));
    assert_eq!(cooldown_remaining(19_999_999_999), Some(1));
    assert_eq!(cooldown_remaining(20_000_000_000), None);
    assert_eq!(cooldown_remaining(u128::MAX), None);
}

#[test]
fn a_new_book_has_no_cooldowns() {
    let b = CooldownBook::new();
    assert_eq!(b.check_cooldown("1", "apple"), None);
}

#[test]
fn a_purchase_starts_the_cooldown_of_that_button_only() {
    let mut b = CooldownBook::new();
    b.set_cooldown("1", "apple");
    let r = b.check_cooldown("1", "apple").expect("cooldown running");
    assert!(r > 19_000_000_000 && r <= 20_000_000_000);
    assert_eq!(b.check_cooldown("1", "pear"), None);
    assert_eq!(b.check_cooldown("2", "apple"), None);
}

#[test]
fn cooldown_is_measured_from_the_recorded_time() {
    let mut b = CooldownBook::new();
    b.set_cooldown_at("1", "apple", 100);
    assert_eq!(b.check_cooldown_at("1", "apple", 100), Some(20_000_000_000));
    assert_eq!(b.check_cooldown_at("1", "apple", 5_000_000_100), Some(15_000_000_000));
    assert_eq!(b.check_cooldown_at("1", "apple", 20_000_000_099), Some(1));
    assert_eq!(b.check_cooldown_at("1", "apple", 20_000_000_100), None);
    // A clock reading before the recorded time counts as no time passed.
    assert_eq!(b.check_cooldown_at("1", "apple", 0), Some(20_000_000_000));
    assert_eq!(b.check_cooldown_at("1", "pear", 100), None);
}

#[test]
fn a_new_purchase_replaces_the_time_and_leaves_others() {
    let mut b = CooldownBook::new();
    b.set_cooldown_at("1", "apple", 0);
    b.set_cooldown_at("2", "apple", 10_000_000_000);
    b.set_cooldown_at("1", "apple", 30_000_000_000);
    assert_eq!(b.check_cooldown_at("1", "apple", 35_000_000_000), Some(15_000_000_000));
    assert_eq!(b.check_cooldown_at("2", "apple", 25_000_000_000), Some(5_000_000_000));
}
