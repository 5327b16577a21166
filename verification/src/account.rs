//! Coin balances of registered players.
use vstd::prelude::*;

verus! {

/// A registered player: Discord id, Steam id and coin balance.
pub struct Player {
    pub discord_id: String,
    pub steam_id: String,
    pub coin: i32,
}

/// The balance left after paying `amount` out of `coin`; `None`, and nothing paid, when the
/// balance is smaller than the amount.
pub fn debit(coin: i32, amount: i32) -> (out: Option<i32>)
    requires
        coin >= amount ==> coin - amount <= i32::MAX,
    ensures
        match debit_result(coin as int, amount as int) {
            None => out is None,
            Some(n) => out == Some(n as i32),
        },
        coin < amount ==> out is None,
        coin >= amount ==> out == Some((coin - amount) as i32),
{
    if coin < amount {
        None
    } else {
        Some(coin - amount)
    }
}

/// The balance after `amount` coins are added to `coin`.
pub fn credit(coin: i32, amount: i32) -> (out: i32)
    requires
        i32::MIN <= coin + amount <= i32::MAX,
    ensures
        out == coin + amount,
{
    coin + amount
}

/// The balance after a debit: the amount is taken exactly when the balance covers it.
pub open spec fn debit_result(coin: int, amount: int) -> Option<int> {
    if coin < amount {
        None
    } else {
        Some(coin - amount)
    }
}

/// A debit is refused exactly when the balance does not cover the amount, and otherwise leaves
/// the balance less exactly the amount.
pub proof fn lemma_debit_exact(coin: int, amount: int)
    ensures
        coin < amount ==> debit_result(coin, amount) is None,
        coin >= amount ==> debit_result(coin, amount) == Some(coin - amount),
        debit_result(coin, amount) matches Some(n) ==> n + amount == coin && n >= coin - amount,
{
}

/// Taking back coins that were just added to a balance that was not negative succeeds and
/// restores the balance.
pub proof fn lemma_credit_then_debit(coin: i32, amount: i32)
    requires
        coin >= 0,
        i32::MIN <= coin + amount <= i32::MAX,
    ensures
        debit_result(coin + amount, amount as int) == Some(coin as int),
{
}

/// A debit of a non-negative amount that succeeds never leaves a negative balance.
pub proof fn lemma_debit_never_negative(coin: int, amount: int)
    requires
        amount >= 0,
    ensures
        debit_result(coin, amount) matches Some(n) ==> n >= 0,
{
}

/// A newly registered player: the given ids and no coins.
pub fn new_player(discord_id: String, steam_id: String) -> (p: Player)
    ensures
        p.discord_id@ == discord_id@,
        p.steam_id@ == steam_id@,
        p.coin == 0,
{
    Player { discord_id, steam_id, coin: 0 }
}

/// What an `!addcoin` grant of `amount` does once the target's record is looked up.
#[derive(Clone, Copy, PartialEq, Eq, Debug)]
pub enum GrantOutcome {
    /// The target is not registered; nothing changes.
    NotRegistered,
    /// The target's balance becomes `total`.
    SetBalance { total: i32 },
}

/// The outcome of granting `amount` coins to the player `found`, if registered.
pub fn grant_outcome(found: &Option<Player>, amount: i32) -> (g: GrantOutcome)
    requires
        found matches Some(p) ==> i32::MIN <= p.coin + amount <= i32::MAX,
    ensures
        g == match found {
            None => GrantOutcome::NotRegistered,
            Some(p) => GrantOutcome::SetBalance { total: (p.coin + amount) as i32 },
        },
{
    match found {
        None => GrantOutcome::NotRegistered,
        Some(p) => GrantOutcome::SetBalance { total: credit(p.coin, amount) },
    }
}

} // verus!
