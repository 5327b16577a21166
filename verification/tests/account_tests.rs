use botshop::account::{credit, debit, grant_outcome, new_player, GrantOutcome, Player};

#[test]
fn debit_takes_coins_when_covered() {
    assert_eq!(debit(100, 30), Some(70));
    assert_eq!(debit(30, 30), Some(0));
}

#[test]
fn debit_refuses_when_not_covered() {
    assert_eq!(debit(29, 30), None);
    assert_eq!(debit(-5, 0), None);
}

#[test]
fn credit_adds() {
    assert_eq!(credit(100, 50), 150);
    assert_eq!(credit(100, -150), -50);
}

#[test]
fn credit_then_debit_restores() {
    let c = credit(40, 25);
    assert_eq!(debit(c, 25), Some(40));
}

#[test]
fn credit_then_debit_fails_from_a_negative_balance() {
    let c = credit(-5, 10);
    assert_eq!(debit(c, 10), None);
}

#[test]
fn player_fields() {
    let p = Player { discord_id: "1".to_string(), steam_id: "765".to_string(), coin: 7 };
    assert_eq!(p.coin, 7);
}

#[test]
fn registration_starts_with_no_coins() {
    let p = new_player("12".to_string(), "7656".to_string());
    assert_eq!(p.discord_id, "12");
    assert_eq!(p.steam_id, "7656");
    assert_eq!(p.coin, 0);
}

#[test]
fn grants_credit_registered_players_only() {
    let p = Player { discord_id: "1".to_string(), steam_id: "765".to_string(), coin: 40 };
    assert_eq!(grant_outcome(&Some(p), 60), GrantOutcome::SetBalance { total: 100 });
    let q = Player { discord_id: "1".to_string(), steam_id: "765".to_string(), coin: 40 };
    assert_eq!(grant_outcome(&Some(q), -50), GrantOutcome::SetBalance { total: -10 });
    assert_eq!(grant_outcome(&None, 60), GrantOutcome::NotRegistered);
}
