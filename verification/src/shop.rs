//! The shop catalogue, the lookup of a pressed button, and what a purchase sends to the game.
use vstd::prelude::*;
use crate::text::{
    contains, contains_str, equals, has_prefix, occurs_at, parse_u64, parse_u64_str, replace_all,
    replace_str,
};

verus! {

broadcast use vstd::string::group_string_axioms;

/// A button under a shop item: pressing it buys `quantity` units and runs `commands` in game.
#[derive(Clone, Debug)]
pub struct ShopButton {
    pub text: String,
    pub trigger: String,
    pub commands: Vec<String>,
    pub quantity: u32,
}

/// An item offered in a shop channel.
#[derive(Clone, Debug)]
pub struct ShopItem {
    pub name: String,
    pub price: u32,
    pub image: Option<String>,
    pub buttons: Vec<ShopButton>,
}

/// A shop channel and the items posted in it.
#[derive(Clone, Debug)]
pub struct ShopConfig {
    pub channel: String,
    pub items: Vec<ShopItem>,
}

/// The quantity of a button whose configuration names none.
pub fn default_quantity() -> (q: u32)
    ensures
        q == 1,
{
    1
}

/// The position of a button in the catalogue: shop, item within the shop, button within the item.
#[derive(Clone, Copy, PartialEq, Eq, Debug)]
pub struct ButtonPosition {
    pub shop: usize,
    pub item: usize,
    pub button: usize,
}

/// `p` names a button of `shops`.
pub open spec fn valid_position(shops: Seq<ShopConfig>, p: ButtonPosition) -> bool {
    &&& p.shop < shops.len()
    &&& p.item < shops[p.shop as int].items@.len()
    &&& p.button < shops[p.shop as int].items@[p.item as int].buttons@.len()
}

/// The item at position `p`.
pub open spec fn item_at(shops: Seq<ShopConfig>, p: ButtonPosition) -> ShopItem {
    shops[p.shop as int].items@[p.item as int]
}

/// The button at position `p`.
pub open spec fn button_at(shops: Seq<ShopConfig>, p: ButtonPosition) -> ShopButton {
    item_at(shops, p).buttons@[p.button as int]
}

/// `p` comes before `q` in the order in which shops, items and buttons are listed.
pub open spec fn before(p: ButtonPosition, q: ButtonPosition) -> bool {
    ||| p.shop < q.shop
    ||| p.shop == q.shop && p.item < q.item
    ||| p.shop == q.shop && p.item == q.item && p.button < q.button
}

/// The button at `p` has trigger `id`.
pub open spec fn triggered_by(shops: Seq<ShopConfig>, p: ButtonPosition, id: Seq<char>) -> bool {
    valid_position(shops, p) && button_at(shops, p).trigger@ == id
}

/// The first button, in catalogue order, whose trigger is `id`; `None` when there is none.
pub open spec fn first_position(shops: Seq<ShopConfig>, id: Seq<char>) -> Option<ButtonPosition> {
    if exists|p: ButtonPosition| triggered_by(shops, p, id) {
        Some(
            choose|p: ButtonPosition|
                triggered_by(shops, p, id) && forall|q: ButtonPosition|
                    #![trigger triggered_by(shops, q, id)]
                    before(q, p) ==> !triggered_by(shops, q, id),
        )
    } else {
        None
    }
}

/// Of two different positions, one comes before the other.
proof fn lemma_before_total(p: ButtonPosition, q: ButtonPosition)
    ensures
        p == q || before(p, q) || before(q, p),
{
}

/// The first button, in catalogue order, whose trigger is `custom_id`.
pub fn find_button(shops: &[ShopConfig], custom_id: &str) -> (out: Option<ButtonPosition>)
    ensures
        match out {
            Some(p) => {
                &&& triggered_by(shops@, p, custom_id@)
                &&& forall|q: ButtonPosition|
                    #![trigger triggered_by(shops@, q, custom_id@)]
                    before(q, p) ==> !triggered_by(shops@, q, custom_id@)
            },
            None => forall|q: ButtonPosition| !triggered_by(shops@, q, custom_id@),
        },
        out == first_position(shops@, custom_id@),
{
    let mut s: usize = 0;
    while s < shops.len()
        invariant
            s <= shops@.len(),
            forall|q: ButtonPosition|
                #![trigger triggered_by(shops@, q, custom_id@)]
                q.shop < s ==> !triggered_by(shops@, q, custom_id@),
        decreases shops@.len() - s,
    {
        let items = &shops[s].items;
        let mut i: usize = 0;
        while i < items.len()
            invariant
                s < shops@.len(),
                items@ == shops@[s as int].items@,
                i <= items@.len(),
                forall|q: ButtonPosition|
                    #![trigger triggered_by(shops@, q, custom_id@)]
                    (q.shop < s || (q.shop == s && q.item < i)) ==> !triggered_by(
                        shops@,
                        q,
                        custom_id@,
                    ),
            decreases items@.len() - i,
        {
            let buttons = &items[i].buttons;
            let mut b: usize = 0;
            while b < buttons.len()
                invariant
                    s < shops@.len(),
                    items@ == shops@[s as int].items@,
                    i < items@.len(),
                    buttons@ == items@[i as int].buttons@,
                    b <= buttons@.len(),
                    forall|q: ButtonPosition|
                        #![trigger triggered_by(shops@, q, custom_id@)]
                        (q.shop < s || (q.shop == s && q.item < i) || (q.shop == s && q.item == i
                            && q.button < b)) ==> !triggered_by(shops@, q, custom_id@),
                decreases buttons@.len() - b,
            {
                if equals(buttons[b].trigger.as_str(), custom_id) {
                    let p = ButtonPosition { shop: s, item: i, button: b };
                    assert(triggered_by(shops@, p, custom_id@));
                    proof {
                        let c = choose|c: ButtonPosition|
                            triggered_by(shops@, c, custom_id@) && forall|q: ButtonPosition|
                                #![trigger triggered_by(shops@, q, custom_id@)]
                                before(q, c) ==> !triggered_by(shops@, q, custom_id@);
                        lemma_before_total(p, c);
                    }
                    return Some(p);
                }
                b = b + 1;
            }
            i = i + 1;
        }
        s = s + 1;
    }
    None
}

/// The placeholder in a button's commands that stands for the buyer's Steam id.
pub open spec fn steam_placeholder() -> Seq<char> {
    "{steam_id}"@
}

/// `cmd` contains one of `special_commands`.
pub open spec fn is_special(cmd: Seq<char>, special_commands: Seq<String>) -> bool {
    exists|j: int| 0 <= j < special_commands.len() && contains(cmd, special_commands[j]@)
}

/// `commands` with the placeholder replaced by `steam_id` in each.
pub fn substitute_steam_id_in_commands(commands: &[String], steam_id: &str) -> (out: Vec<String>)
    ensures
        out@.len() == commands@.len(),
        forall|i: int|
            0 <= i < commands@.len() ==> #[trigger] out@[i]@ == replace_all(
                commands@[i]@,
                steam_placeholder(),
                steam_id@,
            ),
{
    let mut out: Vec<String> = Vec::new();
    let mut i: usize = 0;
    proof {
        reveal_strlit("{steam_id}");
    }
    while i < commands.len()
        invariant
            i <= commands@.len(),
            out@.len() == i,
            steam_placeholder().len() > 0,
            forall|k: int|
                0 <= k < i ==> #[trigger] out@[k]@ == replace_all(
                    commands@[k]@,
                    steam_placeholder(),
                    steam_id@,
                ),
        decreases commands@.len() - i,
    {
        let c = replace_str(commands[i].as_str(), "{steam_id}", steam_id);
        out.push(c);
        i = i + 1;
    }
    out
}

/// Whether `cmd` contains one of `special_commands`.
pub fn is_special_command(cmd: &str, special_commands: &[String]) -> (b: bool)
    ensures
        b == is_special(cmd@, special_commands@),
{
    let mut j: usize = 0;
    while j < special_commands.len()
        invariant
            j <= special_commands@.len(),
            forall|k: int| 0 <= k < j ==> !contains(cmd@, #[trigger] special_commands@[k]@),
        decreases special_commands@.len() - j,
    {
        if contains_str(cmd, special_commands[j].as_str()) {
            return true;
        }
        j = j + 1;
    }
    false
}

/// A purchased command as it is sent to the game: the placeholder replaced by the buyer's Steam
/// id, then ` Location <steam_id>` appended unless the command is special or already names a
/// location.
pub open spec fn game_command(
    cmd: Seq<char>,
    steam_id: Seq<char>,
    special_commands: Seq<String>,
) -> Seq<char> {
    let c = replace_all(cmd, steam_placeholder(), steam_id);
    if !is_special(c, special_commands) && !contains(c, "Location"@) {
        c + " Location "@ + steam_id
    } else {
        c
    }
}

/// The location rule looks only at the command after the Steam id is put in: a command that is
/// not special and names no location is sent followed by " Location " and the buyer's Steam id,
/// whatever placeholders it held; any other is sent as it is. So every command sent that is not
/// special names a location, and every command sent begins with the substituted command.
pub proof fn lemma_location_rule(cmd: Seq<char>, steam_id: Seq<char>, special_commands: Seq<String>)
    ensures
        ({
            let c = replace_all(cmd, steam_placeholder(), steam_id);
            let sent = game_command(cmd, steam_id, special_commands);
            &&& !is_special(c, special_commands) && !contains(c, "Location"@) ==> sent == c
                + " Location "@ + steam_id
            &&& is_special(c, special_commands) || contains(c, "Location"@) ==> sent == c
            &&& !is_special(c, special_commands) ==> contains(sent, "Location"@)
            &&& has_prefix(sent, c)
        }),
{
    reveal_strlit(" Location ");
    reveal_strlit("Location");
    let c = replace_all(cmd, steam_placeholder(), steam_id);
    let sent = game_command(cmd, steam_id, special_commands);
    if !is_special(c, special_commands) && !contains(c, "Location"@) {
        assert(sent.subrange(c.len() as int + 1, c.len() as int + 9) =~= "Location"@);
        assert(occurs_at(sent, "Location"@, c.len() as int + 1));
        assert(sent.take(c.len() as int) =~= c);
    } else {
        assert(sent.take(c.len() as int) =~= c);
    }
}

/// The commands that a purchase of a button with `commands` queues for the buyer `steam_id`.
pub fn purchase_commands(commands: &[String], steam_id: &str, special_commands: &[String]) -> (out:
    Vec<String>)
    ensures
        out@.len() == commands@.len(),
        forall|i: int|
            0 <= i < commands@.len() ==> #[trigger] out@[i]@ == game_command(
                commands@[i]@,
                steam_id@,
                special_commands@,
            ),
{
    let substituted = substitute_steam_id_in_commands(commands, steam_id);
    let mut out: Vec<String> = Vec::new();
    let mut i: usize = 0;
    while i < substituted.len()
        invariant
            substituted@.len() == commands@.len(),
            forall|k: int|
                0 <= k < commands@.len() ==> #[trigger] substituted@[k]@ == replace_all(
                    commands@[k]@,
                    steam_placeholder(),
                    steam_id@,
                ),
            i <= commands@.len(),
            out@.len() == i,
            forall|k: int|
                0 <= k < i ==> #[trigger] out@[k]@ == game_command(
                    commands@[k]@,
                    steam_id@,
                    special_commands@,
                ),
        decreases commands@.len() - i,
    {
        let mut cmd = substituted[i].clone();
        if !is_special_command(cmd.as_str(), special_commands) && !contains_str(
            cmd.as_str(),
            "Location",
        ) {
            cmd.append(" Location ");
            cmd.append(steam_id);
        }
        out.push(cmd);
        i = i + 1;
    }
    out
}

/// The price of `quantity` units at `base_price` each, before any discount.
pub fn order_total(base_price: u32, quantity: u32) -> (total: u32)
    requires
        base_price * quantity <= u32::MAX,
    ensures
        total == base_price * quantity,
{
    base_price * quantity
}

/// The Discord channel id of a shop, when its `channel` reads as a `u64`.
pub fn shop_channel_id(shop: &ShopConfig) -> (id: Option<u64>)
    ensures
        id == parse_u64(shop.channel@),
{
    parse_u64_str(shop.channel.as_str())
}

/// The most buttons that one row of a Discord message holds.
pub open spec fn row_width() -> int {
    5
}

/// The rows in which `count` buttons are posted: consecutive runs of five, in order, the last one
/// holding what is left.
pub open spec fn rows_of(count: int, rows: Seq<(usize, usize)>) -> bool {
    &&& rows.len() == (count + row_width() - 1) / row_width()
    &&& forall|i: int|
        0 <= i < rows.len() ==> #[trigger] rows[i] == (
            (i * row_width()) as usize,
            if (i + 1) * row_width() <= count {
                ((i + 1) * row_width()) as usize
            } else {
                count as usize
            },
        )
}

/// The index ranges `(start, end)` of the rows in which `count` buttons are posted.
pub fn button_rows(count: usize) -> (rows: Vec<(usize, usize)>)
    ensures
        rows_of(count as int, rows@),
{
    let n: usize = count / 5 + if count % 5 != 0 {
        1
    } else {
        0
    };
    assert(n == (count + 4) / 5);
    let mut rows: Vec<(usize, usize)> = Vec::new();
    let mut i: usize = 0;
    while i < n
        invariant
            n == (count + 4) / 5,
            i <= n,
            rows@.len() == i,
            forall|k: int|
                0 <= k < i ==> #[trigger] rows@[k] == (
                    (k * 5) as usize,
                    if (k + 1) * 5 <= count {
                        ((k + 1) * 5) as usize
                    } else {
                        count as usize
                    },
                ),
        decreases n - i,
    {
        let start = i * 5;
        let end = if count - start >= 5 {
            start + 5
        } else {
            count
        };
        rows.push((start, end));
        i = i + 1;
    }
    rows
}

} // verus!
