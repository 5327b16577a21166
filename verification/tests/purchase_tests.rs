use botshop::account::Player;
use botshop::config::Config;
use botshop::purchase::{advance, PurchaseAction, PurchaseContext, PurchaseEvent, PurchaseState};
use botshop::shop::{ButtonPosition, ShopButton, ShopConfig, ShopItem};

const GOLD: u64 = 1345511219263569984;
const EXEMPT: u64 = 1381383699320537209;

fn config() -> Config {
    Config::from_shop_data(vec![ShopConfig {
        channel: "111".to_string(),
        items: vec![ShopItem {
            name: "Apple".to_string(),
            price: 100,
            image: None,
            buttons: vec![ShopButton {
                text: "x2".to_string(),
                trigger: "apple_x2".to_string(),
                commands: vec!["#SpawnItem Apple 2".to_string(), "#ChangeFamePoints {steam_id} 1".to_string()],
                quantity: 2,
            }],
        }],
    }])
}

fn ctx(custom_id: &str, channel_id: u64, roles: Vec<u64>) -> PurchaseContext {
    PurchaseContext { user_id: "42".to_string(), custom_id: custom_id.to_string(), channel_id, roles }
}

fn player(coin: i32) -> Player {
    Player { discord_id: "42".to_string(), steam_id: "765".to_string(), coin }
}

const AT: ButtonPosition = ButtonPosition { shop: 0, item: 0, button: 0 };

#[test]
fn busy_while_cleaning() {
    let (s, a) = advance(&config(), &ctx("apple_x2", 1, vec![]), PurchaseState::Start, PurchaseEvent::Begin { lock_free: false });
    assert!(matches!(s, PurchaseState::Done));
    assert!(matches!(a, PurchaseAction::ReplyBusy));
}

#[test]
fn unknown_button_stops() {
    let (s, a) = advance(&config(), &ctx("pear", 1, vec![]), PurchaseState::Start, PurchaseEvent::Begin { lock_free: true });
    assert!(matches!(s, PurchaseState::Done));
    assert!(matches!(a, PurchaseAction::Stop));
}

#[test]
fn known_button_loads_the_player() {
    let (s, a) = advance(&config(), &ctx("apple_x2", 1, vec![]), PurchaseState::Start, PurchaseEvent::Begin { lock_free: true });
    assert!(matches!(s, PurchaseState::Found { at } if at == AT));
    assert!(matches!(a, PurchaseAction::LoadPlayer));
}

#[test]
fn unregistered_buyer() {
    let (s, a) = advance(&config(), &ctx("apple_x2", 1, vec![]), PurchaseState::Found { at: AT }, PurchaseEvent::PlayerLoaded(None));
    assert!(matches!(s, PurchaseState::Done));
    assert!(matches!(a, PurchaseAction::ReplyNotRegistered));
}

#[test]
fn cooldown_is_checked_outside_the_exempt_channel() {
    let (s, a) = advance(&config(), &ctx("apple_x2", 1, vec![]), PurchaseState::Found { at: AT }, PurchaseEvent::PlayerLoaded(Some(player(500))));
    assert!(matches!(s, PurchaseState::Identified { .. }));
    assert!(matches!(a, PurchaseAction::CheckCooldown));
    let (s, a) = advance(&config(), &ctx("apple_x2", 1, vec![]), s, PurchaseEvent::CooldownChecked(Some(12_500_000_000)));
    assert!(matches!(s, PurchaseState::Done));
    assert!(matches!(a, PurchaseAction::ReplyCooldown { remaining_secs: 12 }));
}

#[test]
fn exempt_channel_goes_straight_to_the_price() {
    let (s, a) = advance(&config(), &ctx("apple_x2", EXEMPT, vec![GOLD]), PurchaseState::Found { at: AT }, PurchaseEvent::PlayerLoaded(Some(player(500))));
    assert!(matches!(s, PurchaseState::Identified { .. }));
    assert!(matches!(a, PurchaseAction::ComputePrice { base_price: 100, quantity: 2, discount_percent: 30 }));
}

#[test]
fn no_cooldown_then_price_without_vip() {
    let (_, a) = advance(&config(), &ctx("apple_x2", 1, vec![7]), PurchaseState::Identified { at: AT, player: player(500) }, PurchaseEvent::CooldownChecked(None));
    assert!(matches!(a, PurchaseAction::ComputePrice { base_price: 100, quantity: 2, discount_percent: 0 }));
}

#[test]
fn insufficient_balance() {
    let (s, a) = advance(&config(), &ctx("apple_x2", 1, vec![]), PurchaseState::Identified { at: AT, player: player(139) }, PurchaseEvent::PriceComputed(140));
    assert!(matches!(s, PurchaseState::Done));
    assert!(matches!(a, PurchaseAction::ReplyInsufficient { price: 140, coin: 139 }));
}

#[test]
fn covered_price_is_charged() {
    let (s, a) = advance(&config(), &ctx("apple_x2", 1, vec![]), PurchaseState::Identified { at: AT, player: player(140) }, PurchaseEvent::PriceComputed(140));
    assert!(matches!(s, PurchaseState::Charging { price: 140, .. }));
    assert!(matches!(a, PurchaseAction::Charge { amount: 140 }));
}

#[test]
fn failed_charge() {
    let (s, a) = advance(&config(), &ctx("apple_x2", 1, vec![]), PurchaseState::Charging { at: AT, player: player(500), price: 140 }, PurchaseEvent::Charged(false));
    assert!(matches!(s, PurchaseState::Done));
    assert!(matches!(a, PurchaseAction::ReplyChargeFailed));
}

#[test]
fn completed_purchase() {
    let (s, a) = advance(&config(), &ctx("apple_x2", 1, vec![]), PurchaseState::Charging { at: AT, player: player(500), price: 140 }, PurchaseEvent::Charged(true));
    assert!(matches!(s, PurchaseState::Done));
    match a {
        PurchaseAction::Complete { at, player, commands, price, remaining_coin, start_cooldown } => {
            assert_eq!(at, AT);
            assert_eq!(player.steam_id, "765");
            assert_eq!(price, 140);
            assert_eq!(remaining_coin, 360);
            assert!(start_cooldown);
            assert_eq!(commands, vec!["#SpawnItem Apple 2 Location 765".to_string(), "#ChangeFamePoints 765 1".to_string()]);
        }
        _ => panic!("expected a completed purchase"),
    }
}

#[test]
fn completed_purchase_in_exempt_channel_starts_no_cooldown() {
    let (_, a) = advance(&config(), &ctx("apple_x2", EXEMPT, vec![]), PurchaseState::Charging { at: AT, player: player(500), price: 0 }, PurchaseEvent::Charged(true));
    assert!(matches!(a, PurchaseAction::Complete { start_cooldown: false, remaining_coin: 500, .. }));
}

#[test]
fn unexpected_event_stops() {
    let (s, a) = advance(&config(), &ctx("apple_x2", 1, vec![]), PurchaseState::Start, PurchaseEvent::Charged(true));
    assert!(matches!(s, PurchaseState::Done));
    assert!(matches!(a, PurchaseAction::Stop));
}

#[test]
fn a_second_press_within_twenty_seconds_is_refused() {
    let mut book = botshop::cooldown::CooldownBook::new();
    book.set_cooldown_at("42", "apple_x2", 1_000_000_000);
    let left = book.check_cooldown_at("42", "apple_x2", 6_500_000_000);
    assert_eq!(left, Some(14_500_000_000));
    let c = config();
    let p = ctx("apple_x2", 1, vec![]);
    let s = PurchaseState::Identified { at: AT, player: player(500) };
    let (s, a) = advance(&c, &p, s, PurchaseEvent::CooldownChecked(left));
    assert!(matches!(a, PurchaseAction::ReplyCooldown { remaining_secs: 14 }));
    let (_, a) = advance(&c, &p, s, PurchaseEvent::Charged(true));
    assert!(matches!(a, PurchaseAction::Stop));
}
