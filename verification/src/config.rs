//! The bot's configuration: the shop catalogue, the VIP roles with their discounts, the channel
//! without cooldowns, the clean-up command lists and the commands that need no location.
use vstd::prelude::*;
use std::collections::HashMap;
use crate::shop::ShopConfig;

verus! {

broadcast use {vstd::string::group_string_axioms, vstd::std_specs::hash::group_hash_axioms};

/// A VIP role: members with it get `discount_percent` percent off, and the role with the
/// highest `tier` among a member's roles applies.
#[derive(Clone, Debug)]
pub struct VipRole {
    pub tier: u8,
    pub discount_percent: u32,
    pub name: String,
}

/// The bot's configuration.
pub struct Config {
    pub shop_data: Vec<ShopConfig>,
    pub vip_roles: HashMap<u64, VipRole>,
    pub exempt_channel_id: u64,
    pub destroy_commands_type1: Vec<String>,
    pub destroy_commands_type2: Vec<String>,
    pub special_commands: Vec<String>,
}

/// The Discord role ids of the VIP roles.
pub open spec fn silver_role() -> u64 {
    1375091477448888412
}

pub open spec fn gold_role() -> u64 {
    1345511219263569984
}

pub open spec fn platinum_role() -> u64 {
    1375090778254217317
}

pub open spec fn diamond_role() -> u64 {
    1381346983649874030
}

/// The channel in which purchases have no cooldown.
pub open spec fn exempt_channel() -> u64 {
    1381383699320537209
}

/// `m` maps `role` to a VIP role with the given tier, discount and name.
pub open spec fn has_vip(
    m: Map<u64, VipRole>,
    role: u64,
    tier: u8,
    discount_percent: u32,
    name: Seq<char>,
) -> bool {
    &&& m.contains_key(role)
    &&& m[role].tier == tier
    &&& m[role].discount_percent == discount_percent
    &&& m[role].name@ == name
}

/// The VIP table of the configuration: four roles, from Silver (no discount) to Diamond.
pub open spec fn vip_table(m: Map<u64, VipRole>) -> bool {
    &&& m.dom() == set![silver_role(), gold_role(), platinum_role(), diamond_role()]
    &&& has_vip(m, silver_role(), 1, 0, "Silver"@)
    &&& has_vip(m, gold_role(), 2, 30, "Gold"@)
    &&& has_vip(m, platinum_role(), 3, 50, "Platinum"@)
    &&& has_vip(m, diamond_role(), 4, 60, "Diamond"@)
}

/// Position `i` of `roles` holds the VIP role that applies: the first of the roles in `m` with
/// the highest tier.
pub open spec fn vip_choice(m: Map<u64, VipRole>, roles: Seq<u64>, i: int) -> bool {
    &&& 0 <= i < roles.len()
    &&& m.contains_key(roles[i])
    &&& forall|j: int|
        0 <= j < roles.len() && m.contains_key(#[trigger] roles[j]) ==> m[roles[j]].tier
            <= m[roles[i]].tier
    &&& forall|j: int|
        0 <= j < i && m.contains_key(#[trigger] roles[j]) ==> m[roles[j]].tier < m[roles[i]].tier
}

/// The VIP role that applies to a member with `roles`, if any.
pub open spec fn applicable_vip(m: Map<u64, VipRole>, roles: Seq<u64>) -> Option<VipRole> {
    if exists|i: int| vip_choice(m, roles, i) {
        Some(m[roles[choose|i: int| vip_choice(m, roles, i)]])
    } else {
        None
    }
}

/// The discount, in percent, of a member with `roles`: that of the applicable VIP role, or none.
pub open spec fn vip_discount(m: Map<u64, VipRole>, roles: Seq<u64>) -> u32 {
    match applicable_vip(m, roles) {
        Some(v) => v.discount_percent,
        None => 0,
    }
}

/// At most one position holds the applicable VIP role.
pub proof fn lemma_vip_choice_unique(m: Map<u64, VipRole>, roles: Seq<u64>, i: int, k: int)
    requires
        vip_choice(m, roles, i),
        vip_choice(m, roles, k),
    ensures
        i == k,
{
    if i < k {
        assert(m[roles[i]].tier < m[roles[k]].tier);
    } else if k < i {
        assert(m[roles[k]].tier < m[roles[i]].tier);
    }
}

/// The commands whose purchases are sent without a location.
pub open spec fn special_list() -> Seq<Seq<char>> {
    seq!["ChangeCurrencyBalance"@, "ChangeFamePoints"@]
}

/// The in-game commands that remove dropped clothes.
pub open spec fn clothes_destroy_list() -> Seq<Seq<char>> {
    seq![
        "#DestroyAllItemsWithinRadius Rag_Stripes 9999999999999999999"@,
        "#DestroyAllItemsWithinRadius Rags 99999999999999999"@,
        "#DestroyAllItemsWithinRadius Peniswarmer_01 99999999999999999"@,
        "#DestroyAllItemsWithinRadius Wool_Gloves_01_01 99999999999999999"@,
        "#DestroyAllItemsWithinRadius Inmate_Hoodie_01 99999999999999999"@,
        "#DestroyAllItemsWithinRadius Inmate_shirt_01 99999999999999999"@,
        "#DestroyAllItemsWithinRadius Scum_Shirt_Event_Black 99999999999999"@,
        "#DestroyAllItemsWithinRadius Scum_Shirt_Event_White 999999999999"@,
        "#DestroyAllItemsWithinRadius Scum_Shirt_Event_Orange 999999999999999"@,
        "#DestroyAllItemsWithinRadius Inmate_pants 99999999999999999"@,
        "#DestroyAllItemsWithinRadius Underpants_01 99999999999999999"@,
        "#DestroyAllItemsWithinRadius Scum_Shirt_Supporter_Pack_Black_01 99999999999999999"@,
        "#DestroyAllItemsWithinRadius F_Undershirt_Bra_01 999999999999999999"@,
        "#DestroyAllItemsWithinRadius Scum_Shirt_Event_Black 9999999999999999999999"@,
        "#DestroyAllItemsWithinRadius Boxer_Briefs_01 9999999999999999999999"@,
        "#DestroyAllItemsWithinRadius HighTop_Shoes 9999999999999999999999"@,
        "#DestroyAllItemsWithinRadius Sock_01 9999999999999999999999"@,
        "#DestroyAllItemsWithinRadius Danny_Trejo_Vest 9999999999999999999999"@,
        "#DestroyAllItemsWithinRadius Danny_Trejo_Pants 9999999999999999999999"@,
        "#DestroyAllItemsWithinRadius 1H_DannyMachete 9999999999999999999999"@,
        "#DestroyAllItemsWithinRadius Danny_Trejo_Glove_01 9999999999999999999999"@,
        "#DestroyAllItemsWithinRadius Danny_Trejo_Boots_01 9999999999999999999999"@,
        "#DestroyAllItemsWithinRadius Military_Beanie_01 9999999999999999999999"@,
        "#DestroyAllItemsWithinRadius Military_Beanie_02 9999999999999999999999"@,
        "#DestroyAllItemsWithinRadius Parachute 9999999999999999999999"@,
        "#DestroyAllItemsWithinRadius Military_Mask_02 9999999999999999999999"@,
        "#DestroyAllItemsWithinRadius F_Bra_Supporter_01 9999999999999999999999"@,
        "#DestroyAllItemsWithinRadius Undershirt_01 9999999999999999999999"@,
        "#DestroyAllItemsWithinRadius LuisMoncada_Jacket 999999999999999999999"@,
        "#DestroyAllItemsWithinRadius LuisMoncada_Pants 999999999999999999999"@,
        "#DestroyAllItemsWithinRadius LuisMoncada_Boots 999999999999999999999"@,
        "#DestroyAllItemsWithinRadius 2H_La_Hacha_Axe 999999999999999999999"@,
        "#DestroyAllItemsWithinRadius Raymond_Cruz_Boots 999999999999999999999"@,
        "#DestroyAllItemsWithinRadius Raymond_Cruz_Hat 999999999999999999999"@,
        "#DestroyAllItemsWithinRadius Raymond_Cruz_Pants 999999999999999999999"@,
        "#DestroyAllItemsWithinRadius Raymond_Cruz_Shirt 999999999999999999999"@,
        "#DestroyAllItemsWithinRadius 1H_RaymondCruz_Knife 999999999999999999999"@,
        "#DestroyAllItemsWithinRadius Undershirt_01 999999999999999999999"@,
    ]
}

/// The in-game commands that remove dropped building materials and debris.
pub open spec fn materials_destroy_list() -> Seq<Seq<char>> {
    seq![
        "#DestroyAllItemsWithinRadius Rope1 99999999999999999999"@,
        "#DestroyAllItemsWithinRadius Paper 999999999999999999999"@,
        "#DestroyAllItemsWithinRadius PETBottle04 999999999999999999999999"@,
        "#DestroyAllItemsWithinRadius Sock_01 9999999999999999999999"@,
        "#DestroyAllItemsWithinRadius Wooden_Stick 9999999999999999999999"@,
        "#DestroyAllItemsWithinRadius Bundle_Wooden_Plank 9999999999999999999999"@,
        "#DestroyAllItemsWithinRadius Wooden_Log_02 9999999999999999999999"@,
        "#DestroyAllItemsWithinRadius Wooden_Log_01 9999999999999999999999"@,
        "#DestroyAllItemsWithinRadius Long_wooden_stick 9999999999999999999999"@,
        "#DestroyAllItemsWithinRadius Paper 9999999999999999999999"@,
        "#DestroyAllItemsWithinRadius Wooden_Plank 9999999999999999999999"@,
        "#DestroyAllItemsWithinRadius Military_Beanie_01 9999999999999999999999"@,
        "#DestroyAllItemsWithinRadius Military_Beanie_02 9999999999999999999999"@,
        "#DestroyAllItemsWithinRadius Parachute 9999999999999999999999"@,
        "#DestroyAllItemsWithinRadius Military_Mask_02 9999999999999999999999"@,
        "#DestroyAllItemsWithinRadius F_Bra_Supporter_01 9999999999999999999999"@,
        "#DestroyAllItemsWithinRadius Undershirt_01 9999999999999999999999"@,
        "#DestroyAllItemsWithinRadius Wooden_Log_Small_01 9999999999999999999999"@,
        "#DestroyAllItemsWithinRadius Wooden_Log_Small_02 9999999999999999999999"@,
        "#DestroyAllItemsWithinRadius Wooden_Log_Small_03 9999999999999999999999"@,
        "#DestroyAllItemsWithinRadius Metal_Scrap_02 9999999999999999999999"@,
        "#DestroyAllItemsWithinRadius Metal_Scrap_03 9999999999999999999999"@,
        "#DestroyAllItemsWithinRadius Metal_Scrap_01 9999999999999999999999"@,
        "#DestroyAllItemsWithinRadius Metal_Scrap_04 9999999999999999999999"@,
        "#DestroyAllItemsWithinRadius Metal_Scrap_05 9999999999999999999999"@,
        "#DestroyAllItemsWithinRadius PETBottle01 9999999999999999999999"@,
        "#DestroyAllItemsWithinRadius Brick 9999999999999999999999"@,
        "#DestroyAllItemsWithinRadius 2H_Axe 9999999999999999999999"@,
        "#DestroyAllItemsWithinRadius 2H_La_Hacha_Axe 999999999999999999999"@,
        "#DestroyAllItemsWithinRadius 1H_RaymondCruz_Knife 999999999999999999999"@,
        "#DestroyAllItemsWithinRadius Inmate_Hoodie_01 999999999999999999999"@,
        "#DestroyAllItemsWithinRadius Wool_Gloves_01_01 999999999999999999999"@,
        "#DestroyAllItemsWithinRadius Undershirt_01 999999999999999999999"@,
        "#DestroyAllItemsWithinRadius Bolts_Package_Box 999999999999999999999"@,
        "#DestroyAllItemsWithinRadius Rope 999999999999999999999"@,
        "#DestroyAllItemsWithinRadius Nails_Package_Box 999999999999999999999"@,
        "#DestroyAllItemsWithinRadius CementBag 999999999999999999999"@,
        "#DestroyAllItemsWithinRadius GravelBag 999999999999999999999"@,
        "#DestroyAllItemsWithinRadius SandBag 999999999999999999999"@,
        "#DestroyAllItemsWithinRadius Barbed_Wire 999999999999999999999"@,
        "#DestroyAllItemsWithinRadius Sledgehammer 999999999999999999999"@,
        "#DestroyAllItemsWithinRadius Nails 999999999999999999999"@,
        "#DestroyAllItemsWithinRadius Bolts 999999999999999999999"@,
        "#DestroyAllItemsWithinRadius EmptyBag 999999999999999999999"@,
    ]
}

/// The in-game commands that remove dropped clothes.
fn clothes_destroy_commands() -> (v: Vec<String>)
    ensures
        v@.map_values(|s: String| s@) == clothes_destroy_list(),
{
    let mut v: Vec<String> = Vec::new();
    v.push("#DestroyAllItemsWithinRadius Rag_Stripes 9999999999999999999".to_string());
    v.push("#DestroyAllItemsWithinRadius Rags 99999999999999999".to_string());
    v.push("#DestroyAllItemsWithinRadius Peniswarmer_01 99999999999999999".to_string());
    v.push("#DestroyAllItemsWithinRadius Wool_Gloves_01_01 99999999999999999".to_string());
    v.push("#DestroyAllItemsWithinRadius Inmate_Hoodie_01 99999999999999999".to_string());
    v.push("#DestroyAllItemsWithinRadius Inmate_shirt_01 99999999999999999".to_string());
    v.push("#DestroyAllItemsWithinRadius Scum_Shirt_Event_Black 99999999999999".to_string());
    v.push("#DestroyAllItemsWithinRadius Scum_Shirt_Event_White 999999999999".to_string());
    v.push("#DestroyAllItemsWithinRadius Scum_Shirt_Event_Orange 999999999999999".to_string());
    v.push("#DestroyAllItemsWithinRadius Inmate_pants 99999999999999999".to_string());
    v.push("#DestroyAllItemsWithinRadius Underpants_01 99999999999999999".to_string());
    v.push("#DestroyAllItemsWithinRadius Scum_Shirt_Supporter_Pack_Black_01 99999999999999999".to_string());
    v.push("#DestroyAllItemsWithinRadius F_Undershirt_Bra_01 999999999999999999".to_string());
    v.push("#DestroyAllItemsWithinRadius Scum_Shirt_Event_Black 9999999999999999999999".to_string());
    v.push("#DestroyAllItemsWithinRadius Boxer_Briefs_01 9999999999999999999999".to_string());
    v.push("#DestroyAllItemsWithinRadius HighTop_Shoes 9999999999999999999999".to_string());
    v.push("#DestroyAllItemsWithinRadius Sock_01 9999999999999999999999".to_string());
    v.push("#DestroyAllItemsWithinRadius Danny_Trejo_Vest 9999999999999999999999".to_string());
    v.push("#DestroyAllItemsWithinRadius Danny_Trejo_Pants 9999999999999999999999".to_string());
    v.push("#DestroyAllItemsWithinRadius 1H_DannyMachete 9999999999999999999999".to_string());
    v.push("#DestroyAllItemsWithinRadius Danny_Trejo_Glove_01 9999999999999999999999".to_string());
    v.push("#DestroyAllItemsWithinRadius Danny_Trejo_Boots_01 9999999999999999999999".to_string());
    v.push("#DestroyAllItemsWithinRadius Military_Beanie_01 9999999999999999999999".to_string());
    v.push("#DestroyAllItemsWithinRadius Military_Beanie_02 9999999999999999999999".to_string());
    v.push("#DestroyAllItemsWithinRadius Parachute 9999999999999999999999".to_string());
    v.push("#DestroyAllItemsWithinRadius Military_Mask_02 9999999999999999999999".to_string());
    v.push("#DestroyAllItemsWithinRadius F_Bra_Supporter_01 9999999999999999999999".to_string());
    v.push("#DestroyAllItemsWithinRadius Undershirt_01 9999999999999999999999".to_string());
    v.push("#DestroyAllItemsWithinRadius LuisMoncada_Jacket 999999999999999999999".to_string());
    v.push("#DestroyAllItemsWithinRadius LuisMoncada_Pants 999999999999999999999".to_string());
    v.push("#DestroyAllItemsWithinRadius LuisMoncada_Boots 999999999999999999999".to_string());
    v.push("#DestroyAllItemsWithinRadius 2H_La_Hacha_Axe 999999999999999999999".to_string());
    v.push("#DestroyAllItemsWithinRadius Raymond_Cruz_Boots 999999999999999999999".to_string());
    v.push("#DestroyAllItemsWithinRadius Raymond_Cruz_Hat 999999999999999999999".to_string());
    v.push("#DestroyAllItemsWithinRadius Raymond_Cruz_Pants 999999999999999999999".to_string());
    v.push("#DestroyAllItemsWithinRadius Raymond_Cruz_Shirt 999999999999999999999".to_string());
    v.push("#DestroyAllItemsWithinRadius 1H_RaymondCruz_Knife 999999999999999999999".to_string());
    v.push("#DestroyAllItemsWithinRadius Undershirt_01 999999999999999999999".to_string());
    assert(v@.map_values(|s: String| s@) =~= clothes_destroy_list());
    v
}

/// The in-game commands that remove dropped building materials and debris.
fn materials_destroy_commands() -> (v: Vec<String>)
    ensures
        v@.map_values(|s: String| s@) == materials_destroy_list(),
{
    let mut v: Vec<String> = Vec::new();
    v.push("#DestroyAllItemsWithinRadius Rope1 99999999999999999999".to_string());
    v.push("#DestroyAllItemsWithinRadius Paper 999999999999999999999".to_string());
    v.push("#DestroyAllItemsWithinRadius PETBottle04 999999999999999999999999".to_string());
    v.push("#DestroyAllItemsWithinRadius Sock_01 9999999999999999999999".to_string());
    v.push("#DestroyAllItemsWithinRadius Wooden_Stick 9999999999999999999999".to_string());
    v.push("#DestroyAllItemsWithinRadius Bundle_Wooden_Plank 9999999999999999999999".to_string());
    v.push("#DestroyAllItemsWithinRadius Wooden_Log_02 9999999999999999999999".to_string());
    v.push("#DestroyAllItemsWithinRadius Wooden_Log_01 9999999999999999999999".to_string());
    v.push("#DestroyAllItemsWithinRadius Long_wooden_stick 9999999999999999999999".to_string());
    v.push("#DestroyAllItemsWithinRadius Paper 9999999999999999999999".to_string());
    v.push("#DestroyAllItemsWithinRadius Wooden_Plank 9999999999999999999999".to_string());
    v.push("#DestroyAllItemsWithinRadius Military_Beanie_01 9999999999999999999999".to_string());
    v.push("#DestroyAllItemsWithinRadius Military_Beanie_02 9999999999999999999999".to_string());
    v.push("#DestroyAllItemsWithinRadius Parachute 9999999999999999999999".to_string());
    v.push("#DestroyAllItemsWithinRadius Military_Mask_02 9999999999999999999999".to_string());
    v.push("#DestroyAllItemsWithinRadius F_Bra_Supporter_01 9999999999999999999999".to_string());
    v.push("#DestroyAllItemsWithinRadius Undershirt_01 9999999999999999999999".to_string());
    v.push("#DestroyAllItemsWithinRadius Wooden_Log_Small_01 9999999999999999999999".to_string());
    v.push("#DestroyAllItemsWithinRadius Wooden_Log_Small_02 9999999999999999999999".to_string());
    v.push("#DestroyAllItemsWithinRadius Wooden_Log_Small_03 9999999999999999999999".to_string());
    v.push("#DestroyAllItemsWithinRadius Metal_Scrap_02 9999999999999999999999".to_string());
    v.push("#DestroyAllItemsWithinRadius Metal_Scrap_03 9999999999999999999999".to_string());
    v.push("#DestroyAllItemsWithinRadius Metal_Scrap_01 9999999999999999999999".to_string());
    v.push("#DestroyAllItemsWithinRadius Metal_Scrap_04 9999999999999999999999".to_string());
    v.push("#DestroyAllItemsWithinRadius Metal_Scrap_05 9999999999999999999999".to_string());
    v.push("#DestroyAllItemsWithinRadius PETBottle01 9999999999999999999999".to_string());
    v.push("#DestroyAllItemsWithinRadius Brick 9999999999999999999999".to_string());
    v.push("#DestroyAllItemsWithinRadius 2H_Axe 9999999999999999999999".to_string());
    v.push("#DestroyAllItemsWithinRadius 2H_La_Hacha_Axe 999999999999999999999".to_string());
    v.push("#DestroyAllItemsWithinRadius 1H_RaymondCruz_Knife 999999999999999999999".to_string());
    v.push("#DestroyAllItemsWithinRadius Inmate_Hoodie_01 999999999999999999999".to_string());
    v.push("#DestroyAllItemsWithinRadius Wool_Gloves_01_01 999999999999999999999".to_string());
    v.push("#DestroyAllItemsWithinRadius Undershirt_01 999999999999999999999".to_string());
    v.push("#DestroyAllItemsWithinRadius Bolts_Package_Box 999999999999999999999".to_string());
    v.push("#DestroyAllItemsWithinRadius Rope 999999999999999999999".to_string());
    v.push("#DestroyAllItemsWithinRadius Nails_Package_Box 999999999999999999999".to_string());
    v.push("#DestroyAllItemsWithinRadius CementBag 999999999999999999999".to_string());
    v.push("#DestroyAllItemsWithinRadius GravelBag 999999999999999999999".to_string());
    v.push("#DestroyAllItemsWithinRadius SandBag 999999999999999999999".to_string());
    v.push("#DestroyAllItemsWithinRadius Barbed_Wire 999999999999999999999".to_string());
    v.push("#DestroyAllItemsWithinRadius Sledgehammer 999999999999999999999".to_string());
    v.push("#DestroyAllItemsWithinRadius Nails 999999999999999999999".to_string());
    v.push("#DestroyAllItemsWithinRadius Bolts 999999999999999999999".to_string());
    v.push("#DestroyAllItemsWithinRadius EmptyBag 999999999999999999999".to_string());
    assert(v@.map_values(|s: String| s@) =~= materials_destroy_list());
    v
}

/// The VIP roles.
fn vip_roles() -> (m: HashMap<u64, VipRole>)
    ensures
        vip_table(m@),
{
    let mut m: HashMap<u64, VipRole> = HashMap::new();
    m.insert(1375091477448888412, VipRole { tier: 1, discount_percent: 0, name: "Silver".to_string() });
    m.insert(1345511219263569984, VipRole { tier: 2, discount_percent: 30, name: "Gold".to_string() });
    m.insert(
        1375090778254217317,
        VipRole { tier: 3, discount_percent: 50, name: "Platinum".to_string() },
    );
    m.insert(
        1381346983649874030,
        VipRole { tier: 4, discount_percent: 60, name: "Diamond".to_string() },
    );
    assert(m@.dom() =~= set![silver_role(), gold_role(), platinum_role(), diamond_role()]);
    m
}

/// The commands whose purchases are sent without a location.
fn special_commands() -> (v: Vec<String>)
    ensures
        v@.map_values(|s: String| s@) == special_list(),
{
    let mut v: Vec<String> = Vec::new();
    v.push("ChangeCurrencyBalance".to_string());
    v.push("ChangeFamePoints".to_string());
    assert(v@.map_values(|s: String| s@) =~= special_list());
    v
}

impl Config {
    /// The configuration around the shop catalogue `shop_data`.
    pub fn from_shop_data(shop_data: Vec<ShopConfig>) -> (c: Config)
        ensures
            c.shop_data@ == shop_data@,
            vip_table(c.vip_roles@),
            c.exempt_channel_id == exempt_channel(),
            c.destroy_commands_type1@.map_values(|s: String| s@) == clothes_destroy_list(),
            c.destroy_commands_type2@.map_values(|s: String| s@) == materials_destroy_list(),
            c.special_commands@.map_values(|s: String| s@) == special_list(),
    {
        Config {
            shop_data,
            vip_roles: vip_roles(),
            exempt_channel_id: 1381383699320537209,
            destroy_commands_type1: clothes_destroy_commands(),
            destroy_commands_type2: materials_destroy_commands(),
            special_commands: special_commands(),
        }
    }

    /// The VIP role that applies to a member with `roles`: among those of `roles` that are VIP
    /// roles, the first one with the highest tier; `None` when there is none.
    pub fn vip_tier(&self, roles: &[u64]) -> (out: Option<&VipRole>)
        ensures
            match out {
                None => applicable_vip(self.vip_roles@, roles@) is None,
                Some(v) => applicable_vip(self.vip_roles@, roles@) == Some(*v),
            },
            match out {
                None => forall|i: int|
                    0 <= i < roles@.len() ==> !self.vip_roles@.contains_key(#[trigger] roles@[i]),
                Some(v) => exists|i: int|
                    0 <= i < roles@.len() && self.vip_roles@.contains_key(roles@[i])
                        && *v == self.vip_roles@[roles@[i]] && (forall|j: int|
                        0 <= j < roles@.len() && self.vip_roles@.contains_key(#[trigger] roles@[j])
                            ==> self.vip_roles@[roles@[j]].tier <= v.tier) && (forall|j: int|
                        0 <= j < i && self.vip_roles@.contains_key(#[trigger] roles@[j])
                            ==> self.vip_roles@[roles@[j]].tier < v.tier),
            },
    {
        let mut best: Option<&VipRole> = None;
        let ghost mut best_at: int = 0;
        let mut k: usize = 0;
        while k < roles.len()
            invariant
                k <= roles@.len(),
                match best {
                    None => forall|i: int|
                        0 <= i < k ==> !self.vip_roles@.contains_key(#[trigger] roles@[i]),
                    Some(v) => {
                        &&& 0 <= best_at < k
                        &&& self.vip_roles@.contains_key(roles@[best_at])
                        &&& *v == self.vip_roles@[roles@[best_at]]
                        &&& forall|j: int|
                            0 <= j < k && self.vip_roles@.contains_key(#[trigger] roles@[j])
                                ==> self.vip_roles@[roles@[j]].tier <= v.tier
                        &&& forall|j: int|
                            0 <= j < best_at && self.vip_roles@.contains_key(#[trigger] roles@[j])
                                ==> self.vip_roles@[roles@[j]].tier < v.tier
                    },
                },
            decreases roles@.len() - k,
        {
            let role = roles[k];
            if let Some(v) = self.vip_roles.get(&role) {
                let better = match best {
                    None => true,
                    Some(b) => v.tier > b.tier,
                };
                if better {
                    best = Some(v);
                    proof {
                        best_at = k as int;
                    }
                }
            }
            k = k + 1;
        }
        proof {
            let m = self.vip_roles@;
            if best is Some {
                let i = best_at;
                assert(0 <= i < roles@.len() && self.vip_roles@.contains_key(roles@[i]));
                assert(vip_choice(m, roles@, i));
                let c = choose|c: int| vip_choice(m, roles@, c);
                lemma_vip_choice_unique(m, roles@, i, c);
            } else {
                if exists|c: int| vip_choice(m, roles@, c) {
                    let c = choose|c: int| vip_choice(m, roles@, c);
                    assert(!m.contains_key(roles@[c]));
                }
            }
        }
        best
    }
}

/// In the VIP table, a role of a higher tier never gives a smaller discount.
pub proof fn lemma_vip_discount_grows_with_tier(m: Map<u64, VipRole>, a: u64, b: u64)
    requires
        vip_table(m),
        m.contains_key(a),
        m.contains_key(b),
        m[a].tier < m[b].tier,
    ensures
        m[a].discount_percent <= m[b].discount_percent,
{
    assert(m.dom().contains(a) && m.dom().contains(b));
}

} // verus!
