//! The decisions taken when a member presses a shop button, as a state machine: each step takes
//! the result of the last outside operation (lock, database, clock, price) and gives the next
//! state and the next operation to perform.
use vstd::prelude::*;
use crate::account::Player;
use crate::config::{Config, vip_discount};
use crate::cooldown::{cooldown_at, cooldown_nanos, lemma_cooldown_after_purchase};
use crate::shop::{
    ButtonPosition, ShopConfig, button_at, first_position, find_button, game_command, item_at,
    purchase_commands, valid_position,
};

verus! {

/// The press being handled: who pressed which button in which channel, with which roles.
pub struct PurchaseContext {
    pub user_id: String,
    pub custom_id: String,
    pub channel_id: u64,
    pub roles: Vec<u64>,
}

/// How far a purchase has come.
pub enum PurchaseState {
    /// Nothing checked yet.
    Start,
    /// The pressed button is known.
    Found { at: ButtonPosition },
    /// The buyer is known.
    Identified { at: ButtonPosition, player: Player },
    /// The price is known and covered by the balance; the coins are being taken.
    Charging { at: ButtonPosition, player: Player, price: u32 },
    /// Finished.
    Done,
}

/// The result of the last outside operation.
pub enum PurchaseEvent {
    /// The press arrived; `lock_free` tells whether no clean-up run holds the lock.
    Begin { lock_free: bool },
    /// The buyer's record, if registered.
    PlayerLoaded(Option<Player>),
    /// The waiting time left on the buyer's cooldown for this button, in nanoseconds.
    CooldownChecked(Option<u64>),
    /// The price to pay after the VIP discount.
    PriceComputed(u32),
    /// Whether the coins were taken from the balance.
    Charged(bool),
}

/// The next outside operation.
pub enum PurchaseAction {
    /// Answer that a clean-up run is in progress.
    ReplyBusy,
    /// Do nothing more.
    Stop,
    /// Acknowledge the press and load the buyer's record.
    LoadPlayer,
    /// Answer that the buyer is not registered.
    ReplyNotRegistered,
    /// Read the buyer's cooldown for this button.
    CheckCooldown,
    /// Answer that the button is on cooldown for this many more seconds.
    ReplyCooldown { remaining_secs: u64 },
    /// Compute the price of `quantity` units at `base_price` with `discount_percent` off.
    ComputePrice { base_price: u32, quantity: u32, discount_percent: u32 },
    /// Answer that the balance `coin` does not cover `price`.
    ReplyInsufficient { price: u32, coin: i32 },
    /// Take `amount` coins from the buyer's balance.
    Charge { amount: i32 },
    /// Answer that taking the coins failed.
    ReplyChargeFailed,
    /// Queue `commands` for the game, log the purchase at `price`, start the cooldown if
    /// `start_cooldown`, and tell the buyer that `remaining_coin` coins are left.
    Complete {
        at: ButtonPosition,
        player: Player,
        commands: Vec<String>,
        price: u32,
        remaining_coin: i32,
        start_cooldown: bool,
    },
}

/// The positions held by `s` name buttons of `shops`.
pub open spec fn state_ok(shops: Seq<ShopConfig>, s: PurchaseState) -> bool {
    match s {
        PurchaseState::Found { at } => valid_position(shops, at),
        PurchaseState::Identified { at, .. } => valid_position(shops, at),
        PurchaseState::Charging { at, player, price } => valid_position(shops, at) && player.coin
            >= price as i32,
        _ => true,
    }
}

/// The price request for the button at `at`, with `discount_percent` off.
pub open spec fn price_request(shops: Seq<ShopConfig>, at: ButtonPosition, discount_percent: u32) -> PurchaseAction {
    PurchaseAction::ComputePrice {
        base_price: item_at(shops, at).price,
        quantity: button_at(shops, at).quantity,
        discount_percent,
    }
}

/// `cmds` are the commands that buying the button at `at` sends for `player`.
pub open spec fn completes_with(
    config: &Config,
    at: ButtonPosition,
    player: Player,
    cmds: Seq<String>,
) -> bool {
    let button_cmds = button_at(config.shop_data@, at).commands@;
    &&& cmds.len() == button_cmds.len()
    &&& forall|i: int|
        0 <= i < cmds.len() ==> #[trigger] cmds[i]@ == game_command(
            button_cmds[i]@,
            player.steam_id@,
            config.special_commands@,
        )
}

/// What an action does, without the data it carries.
pub enum ActionKind {
    ReplyBusy,
    Stop,
    LoadPlayer,
    ReplyNotRegistered,
    CheckCooldown,
    /// The buyer is told to wait `remaining_secs` more seconds.
    ReplyCooldown { remaining_secs: u64 },
    ComputePrice,
    ReplyInsufficient,
    /// Coins are taken from the buyer.
    Charge { amount: i32 },
    ReplyChargeFailed,
    /// Commands are queued and the purchase logged; the buyer had `coin` and has `remaining`;
    /// the cooldown is started when `start_cooldown`.
    Complete { price: u32, coin: i32, remaining: i32, start_cooldown: bool },
}

/// The kind of `a`.
pub open spec fn kind_of(a: PurchaseAction) -> ActionKind {
    match a {
        PurchaseAction::ReplyBusy => ActionKind::ReplyBusy,
        PurchaseAction::Stop => ActionKind::Stop,
        PurchaseAction::LoadPlayer => ActionKind::LoadPlayer,
        PurchaseAction::ReplyNotRegistered => ActionKind::ReplyNotRegistered,
        PurchaseAction::CheckCooldown => ActionKind::CheckCooldown,
        PurchaseAction::ReplyCooldown { remaining_secs } => ActionKind::ReplyCooldown {
            remaining_secs,
        },
        PurchaseAction::ComputePrice { .. } => ActionKind::ComputePrice,
        PurchaseAction::ReplyInsufficient { .. } => ActionKind::ReplyInsufficient,
        PurchaseAction::Charge { amount } => ActionKind::Charge { amount },
        PurchaseAction::ReplyChargeFailed => ActionKind::ReplyChargeFailed,
        PurchaseAction::Complete { player, price, remaining_coin, start_cooldown, .. } =>
        ActionKind::Complete { price, coin: player.coin, remaining: remaining_coin, start_cooldown },
    }
}

/// The state after one step from `s` on event `e`.
pub open spec fn step_state(
    config: &Config,
    ctx: &PurchaseContext,
    s: PurchaseState,
    e: PurchaseEvent,
) -> PurchaseState {
    match (s, e) {
        (PurchaseState::Start, PurchaseEvent::Begin { lock_free }) => if !lock_free {
            PurchaseState::Done
        } else {
            match first_position(config.shop_data@, ctx.custom_id@) {
                None => PurchaseState::Done,
                Some(p) => PurchaseState::Found { at: p },
            }
        },
        (PurchaseState::Found { at }, PurchaseEvent::PlayerLoaded(loaded)) => match loaded {
            None => PurchaseState::Done,
            Some(player) => PurchaseState::Identified { at, player },
        },
        (PurchaseState::Identified { at, player }, PurchaseEvent::CooldownChecked(remaining)) => {
            match remaining {
                Some(_) => PurchaseState::Done,
                None => PurchaseState::Identified { at, player },
            }
        },
        (PurchaseState::Identified { at, player }, PurchaseEvent::PriceComputed(price)) => if player.coin
            < price as i32 {
            PurchaseState::Done
        } else {
            PurchaseState::Charging { at, player, price }
        },
        _ => PurchaseState::Done,
    }
}

/// The kind of the action of one step from `s` on event `e`.
pub open spec fn step_kind(
    config: &Config,
    ctx: &PurchaseContext,
    s: PurchaseState,
    e: PurchaseEvent,
) -> ActionKind {
    match (s, e) {
        (PurchaseState::Start, PurchaseEvent::Begin { lock_free }) => if !lock_free {
            ActionKind::ReplyBusy
        } else {
            match first_position(config.shop_data@, ctx.custom_id@) {
                None => ActionKind::Stop,
                Some(_) => ActionKind::LoadPlayer,
            }
        },
        (PurchaseState::Found { .. }, PurchaseEvent::PlayerLoaded(loaded)) => match loaded {
            None => ActionKind::ReplyNotRegistered,
            Some(_) => if ctx.channel_id != config.exempt_channel_id {
                ActionKind::CheckCooldown
            } else {
                ActionKind::ComputePrice
            },
        },
        (PurchaseState::Identified { .. }, PurchaseEvent::CooldownChecked(remaining)) => {
            match remaining {
                Some(n) => ActionKind::ReplyCooldown { remaining_secs: n / 1_000_000_000 },
                None => ActionKind::ComputePrice,
            }
        },
        (PurchaseState::Identified { player, .. }, PurchaseEvent::PriceComputed(price)) => if player.coin
            < price as i32 {
            ActionKind::ReplyInsufficient
        } else {
            ActionKind::Charge { amount: price as i32 }
        },
        (PurchaseState::Charging { player, price, .. }, PurchaseEvent::Charged(ok)) => if !ok {
            ActionKind::ReplyChargeFailed
        } else {
            ActionKind::Complete {
                price,
                coin: player.coin,
                remaining: (player.coin - price as i32) as i32,
                start_cooldown: ctx.channel_id != config.exempt_channel_id,
            }
        },
        _ => ActionKind::Stop,
    }
}

/// The state after the first `n` of `events`, from `s`.
pub open spec fn state_after(
    config: &Config,
    ctx: &PurchaseContext,
    s: PurchaseState,
    events: Seq<PurchaseEvent>,
    n: nat,
) -> PurchaseState
    decreases n,
{
    if n == 0 {
        s
    } else {
        step_state(config, ctx, state_after(config, ctx, s, events, (n - 1) as nat), events[n - 1])
    }
}

/// The kind of the action of step `i` of a purchase run on `events` from the start.
pub open spec fn kind_at(
    config: &Config,
    ctx: &PurchaseContext,
    events: Seq<PurchaseEvent>,
    i: int,
) -> ActionKind {
    step_kind(config, ctx, state_after(config, ctx, PurchaseState::Start, events, i as nat), events[i])
}

/// How far a state has come.
pub open spec fn rank(s: PurchaseState) -> int {
    match s {
        PurchaseState::Start => 0,
        PurchaseState::Found { .. } => 1,
        PurchaseState::Identified { .. } => 2,
        PurchaseState::Charging { .. } => 3,
        PurchaseState::Done => 4,
    }
}

/// A run never goes back.
proof fn lemma_rank_grows(
    config: &Config,
    ctx: &PurchaseContext,
    events: Seq<PurchaseEvent>,
    n: nat,
    m: nat,
)
    requires
        n <= m,
    ensures
        rank(state_after(config, ctx, PurchaseState::Start, events, n)) <= rank(
            state_after(config, ctx, PurchaseState::Start, events, m),
        ),
    decreases m - n,
{
    if n < m {
        lemma_rank_grows(config, ctx, events, n, (m - 1) as nat);
    }
}

/// A run of a purchase, whatever the events, either takes the buyer's coins once and then, when
/// that succeeds, completes once, or does neither: coins are taken at most once; a completion
/// comes right after the taking of exactly its price, from a balance that covered it, and
/// reports that balance less the price; a successful taking is always followed by the
/// completion. No other action moves coins or queues commands.
pub proof fn lemma_purchase_run(
    config: &Config,
    ctx: &PurchaseContext,
    events: Seq<PurchaseEvent>,
    i: int,
    j: int,
)
    requires
        0 <= i < events.len(),
        0 <= j < events.len(),
    ensures
        kind_at(config, ctx, events, i) is Charge && kind_at(config, ctx, events, j) is Charge
            ==> i == j,
        kind_at(config, ctx, events, i) is Complete && kind_at(config, ctx, events, j) is Complete
            ==> i == j,
        kind_at(config, ctx, events, j) matches ActionKind::Complete { price, coin, remaining, .. }
            ==> {
            &&& j >= 1
            &&& kind_at(config, ctx, events, j - 1) == ActionKind::Charge { amount: price as i32 }
            &&& events[j] == PurchaseEvent::Charged(true)
            &&& coin >= price as i32
            &&& price <= i32::MAX ==> remaining == coin - price && remaining >= 0
        },
        kind_at(config, ctx, events, i) is Charge && i + 1 < events.len() && events[i + 1]
            == PurchaseEvent::Charged(true) ==> kind_at(config, ctx, events, i + 1) is Complete,
{
    lemma_complete_follows_charge(config, ctx, events, i);
    lemma_complete_follows_charge(config, ctx, events, j);
    lemma_charge_once(config, ctx, events, i, j);
    if kind_at(config, ctx, events, i) is Complete && kind_at(config, ctx, events, j) is Complete {
        lemma_charge_once(config, ctx, events, i - 1, j - 1);
    }
    if kind_at(config, ctx, events, i) is Charge {
        let next = state_after(config, ctx, PurchaseState::Start, events, (i + 1) as nat);
        assert(next is Charging);
    }
}

/// Coins are taken at most once in a run.
proof fn lemma_charge_once(
    config: &Config,
    ctx: &PurchaseContext,
    events: Seq<PurchaseEvent>,
    i: int,
    j: int,
)
    requires
        0 <= i < events.len(),
        0 <= j < events.len(),
    ensures
        kind_at(config, ctx, events, i) is Charge && kind_at(config, ctx, events, j) is Charge
            ==> i == j,
{
    if kind_at(config, ctx, events, i) is Charge && kind_at(config, ctx, events, j) is Charge {
        if i < j {
            lemma_rank_grows(config, ctx, events, (i + 1) as nat, j as nat);
        } else if j < i {
            lemma_rank_grows(config, ctx, events, (j + 1) as nat, i as nat);
        }
    }
}

/// A completion comes right after the taking of exactly its price, from a covering balance.
proof fn lemma_complete_follows_charge(
    config: &Config,
    ctx: &PurchaseContext,
    events: Seq<PurchaseEvent>,
    j: int,
)
    requires
        0 <= j < events.len(),
    ensures
        kind_at(config, ctx, events, j) matches ActionKind::Complete { price, coin, remaining, .. }
            ==> {
            &&& j >= 1
            &&& kind_at(config, ctx, events, j - 1) == ActionKind::Charge { amount: price as i32 }
            &&& events[j] == PurchaseEvent::Charged(true)
            &&& coin >= price as i32
            &&& price <= i32::MAX ==> remaining == coin - price && remaining >= 0
        },
{
    let s = state_after(config, ctx, PurchaseState::Start, events, j as nat);
    if kind_at(config, ctx, events, j) is Complete {
        assert(s is Charging);
        assert(j >= 1);
        let prev = state_after(config, ctx, PurchaseState::Start, events, (j - 1) as nat);
        assert(s == step_state(config, ctx, prev, events[j - 1]));
        assert(prev is Identified);
    }
}

/// Cooldowns in a purchase run: in the channel exempt from cooldowns no cooldown is read, and a
/// completion starts one exactly outside that channel. A buyer whose last purchase through the
/// button was recorded at `t0`, less than 20 seconds before the clock reading `t`, is told to
/// wait the whole seconds left of the 20, and the run then neither takes coins nor completes.
pub proof fn lemma_purchase_cooldown(
    config: &Config,
    ctx: &PurchaseContext,
    events: Seq<PurchaseEvent>,
    recorded: Map<(Seq<char>, Seq<char>), u128>,
    t0: u128,
    t: u128,
    i: int,
    j: int,
)
    requires
        0 <= i < events.len(),
        0 <= j < events.len(),
    ensures
        ctx.channel_id == config.exempt_channel_id ==> !(kind_at(config, ctx, events, i) is CheckCooldown),
        kind_at(config, ctx, events, i) matches ActionKind::Complete { start_cooldown, .. }
            ==> start_cooldown == (ctx.channel_id != config.exempt_channel_id),
        ({
            let key = (ctx.user_id@, ctx.custom_id@);
            &&& kind_at(config, ctx, events, i) is CheckCooldown
            &&& i < j
            &&& t0 <= t < t0 + cooldown_nanos()
            &&& events[i + 1] == PurchaseEvent::CooldownChecked(
                cooldown_at(recorded.insert(key, t0), key, t),
            )
        }) ==> {
            &&& kind_at(config, ctx, events, i + 1) == ActionKind::ReplyCooldown {
                remaining_secs: ((cooldown_nanos() - (t - t0)) as u64) / 1_000_000_000,
            }
            &&& !(kind_at(config, ctx, events, j) is Charge)
            &&& !(kind_at(config, ctx, events, j) is Complete)
        },
{
    let key = (ctx.user_id@, ctx.custom_id@);
    if kind_at(config, ctx, events, i) is CheckCooldown && i < j && t0 <= t && t < t0
        + cooldown_nanos() && events[i + 1] == PurchaseEvent::CooldownChecked(
        cooldown_at(recorded.insert(key, t0), key, t),
    ) {
        lemma_cooldown_after_purchase(recorded, key, key, t0, t);
        let s1 = state_after(config, ctx, PurchaseState::Start, events, (i + 1) as nat);
        assert(s1 is Identified);
        assert(state_after(config, ctx, PurchaseState::Start, events, (i + 2) as nat) is Done);
        if j > i + 1 {
            lemma_rank_grows(config, ctx, events, (i + 2) as nat, j as nat);
        }
    }
}

/// One step of a purchase: the next state and the next operation, from the current state and
/// the result of the last operation.
pub fn advance(
    config: &Config,
    ctx: &PurchaseContext,
    state: PurchaseState,
    event: PurchaseEvent,
) -> (r: (PurchaseState, PurchaseAction))
    requires
        state_ok(config.shop_data@, state),
        state matches PurchaseState::Charging { player, price, .. } ==> player.coin - (price as i32)
            <= i32::MAX,
    ensures
        state_ok(config.shop_data@, r.0),
        r.0 == step_state(config, ctx, state, event),
        kind_of(r.1) == step_kind(config, ctx, state, event),
        match (state, event) {
            (PurchaseState::Start, PurchaseEvent::Begin { lock_free }) => if !lock_free {
                r.0 is Done && r.1 is ReplyBusy
            } else {
                match first_position(config.shop_data@, ctx.custom_id@) {
                    None => r.0 is Done && r.1 is Stop,
                    Some(p) => r.0 == PurchaseState::Found { at: p } && r.1 is LoadPlayer,
                }
            },
            (PurchaseState::Found { at }, PurchaseEvent::PlayerLoaded(loaded)) => match loaded {
                None => r.0 is Done && r.1 is ReplyNotRegistered,
                Some(player) => {
                    &&& r.0 == PurchaseState::Identified { at, player }
                    &&& if ctx.channel_id != config.exempt_channel_id {
                        r.1 is CheckCooldown
                    } else {
                        r.1 == price_request(config.shop_data@, at, vip_discount(config.vip_roles@, ctx.roles@))
                    }
                },
            },
            (
                PurchaseState::Identified { at, player },
                PurchaseEvent::CooldownChecked(remaining),
            ) => match remaining {
                Some(n) => r.0 is Done && r.1 == PurchaseAction::ReplyCooldown {
                    remaining_secs: n / 1_000_000_000,
                },
                None => r.0 == PurchaseState::Identified { at, player } && r.1 == price_request(
                    config.shop_data@,
                    at,
                    vip_discount(config.vip_roles@, ctx.roles@),
                ),
            },
            (PurchaseState::Identified { at, player }, PurchaseEvent::PriceComputed(price)) => if player.coin
                < price as i32 {
                r.0 is Done && r.1 == PurchaseAction::ReplyInsufficient { price, coin: player.coin }
            } else {
                r.0 == PurchaseState::Charging { at, player, price } && r.1
                    == PurchaseAction::Charge { amount: price as i32 }
            },
            (PurchaseState::Charging { at, player, price }, PurchaseEvent::Charged(ok)) => if !ok {
                r.0 is Done && r.1 is ReplyChargeFailed
            } else {
                &&& r.0 is Done
                &&& r.1 matches PurchaseAction::Complete {
                    at: at2,
                    player: player2,
                    commands,
                    price: price2,
                    remaining_coin,
                    start_cooldown,
                }
                &&& at2 == at && player2 == player && price2 == price
                &&& remaining_coin == player.coin - (price as i32)
                &&& start_cooldown == (ctx.channel_id != config.exempt_channel_id)
                &&& completes_with(config, at, player, commands@)
            },
            _ => r.0 is Done && r.1 is Stop,
        },
{
    match (state, event) {
        (PurchaseState::Start, PurchaseEvent::Begin { lock_free }) => {
            if !lock_free {
                return (PurchaseState::Done, PurchaseAction::ReplyBusy);
            }
            match find_button(config.shop_data.as_slice(), ctx.custom_id.as_str()) {
                None => (PurchaseState::Done, PurchaseAction::Stop),
                Some(p) => (PurchaseState::Found { at: p }, PurchaseAction::LoadPlayer),
            }
        },
        (PurchaseState::Found { at }, PurchaseEvent::PlayerLoaded(loaded)) => match loaded {
            None => (PurchaseState::Done, PurchaseAction::ReplyNotRegistered),
            Some(player) => {
                if ctx.channel_id != config.exempt_channel_id {
                    (PurchaseState::Identified { at, player }, PurchaseAction::CheckCooldown)
                } else {
                    let action = price_action(config, ctx, at);
                    (PurchaseState::Identified { at, player }, action)
                }
            },
        },
        (PurchaseState::Identified { at, player }, PurchaseEvent::CooldownChecked(remaining)) => {
            match remaining {
                Some(n) => (
                    PurchaseState::Done,
                    PurchaseAction::ReplyCooldown { remaining_secs: n / 1_000_000_000 },
                ),
                None => {
                    let action = price_action(config, ctx, at);
                    (PurchaseState::Identified { at, player }, action)
                },
            }
        },
        (PurchaseState::Identified { at, player }, PurchaseEvent::PriceComputed(price)) => {
            let amount = price as i32;
            if player.coin < amount {
                let coin = player.coin;
                (PurchaseState::Done, PurchaseAction::ReplyInsufficient { price, coin })
            } else {
                (PurchaseState::Charging { at, player, price }, PurchaseAction::Charge { amount })
            }
        },
        (PurchaseState::Charging { at, player, price }, PurchaseEvent::Charged(ok)) => {
            if !ok {
                return (PurchaseState::Done, PurchaseAction::ReplyChargeFailed);
            }
            let button = &config.shop_data[at.shop].items[at.item].buttons[at.button];
            let commands = purchase_commands(
                button.commands.as_slice(),
                player.steam_id.as_str(),
                config.special_commands.as_slice(),
            );
            let remaining_coin = player.coin - price as i32;
            let start_cooldown = ctx.channel_id != config.exempt_channel_id;
            (
                PurchaseState::Done,
                PurchaseAction::Complete {
                    at,
                    player,
                    commands,
                    price,
                    remaining_coin,
                    start_cooldown,
                },
            )
        },
        _ => (PurchaseState::Done, PurchaseAction::Stop),
    }
}

/// The price request for the button at `at`, with the discount of the pressing member.
fn price_action(config: &Config, ctx: &PurchaseContext, at: ButtonPosition) -> (a: PurchaseAction)
    requires
        valid_position(config.shop_data@, at),
    ensures
        a == price_request(config.shop_data@, at, vip_discount(config.vip_roles@, ctx.roles@)),
{
    let discount_percent = match config.vip_tier(ctx.roles.as_slice()) {
        Some(v) => v.discount_percent,
        None => 0,
    };
    let item = &config.shop_data[at.shop].items[at.item];
    let button = &item.buttons[at.button];
    PurchaseAction::ComputePrice { base_price: item.price, quantity: button.quantity, discount_percent }
}

/// A purchase that reaches the charging step is covered by the buyer's balance: with a price that
/// fits in an `i32`, the balance left after it is not negative.
pub proof fn lemma_charge_covered(shops: Seq<ShopConfig>, s: PurchaseState)
    requires
        state_ok(shops, s),
        s matches PurchaseState::Charging { price, .. } && price <= i32::MAX,
    ensures
        s matches PurchaseState::Charging { player, price, .. } && player.coin - price >= 0,
{
}

} // verus!
