use botshop::config::{Config, VipRole};
use std::collections::HashMap;

#[test]
fn configuration_tables() {
    let c = Config::from_shop_data(vec![]);
    assert!(c.shop_data.is_empty());
    assert_eq!(c.exempt_channel_id, 1381383699320537209);
    assert_eq!(c.vip_roles.len(), 4);
    let gold = &c.vip_roles[&1345511219263569984];
    assert_eq!((gold.tier, gold.discount_percent, gold.name.as_str()), (2, 30, "Gold"));
    let diamond = &c.vip_roles[&1381346983649874030];
    assert_eq!((diamond.tier, diamond.discount_percent, diamond.name.as_str()), (4, 60, "Diamond"));
    let silver = &c.vip_roles[&1375091477448888412];
    assert_eq!((silver.tier, silver.discount_percent), (1, 0));
    assert_eq!(c.destroy_commands_type1.len(), 38);
    assert_eq!(c.destroy_commands_type2.len(), 44);
    assert_eq!(c.destroy_commands_type1[0], "#DestroyAllItemsWithinRadius Rag_Stripes 9999999999999999999");
    assert_eq!(c.destroy_commands_type2[43], "#DestroyAllItemsWithinRadius EmptyBag 999999999999999999999");
    assert!(c.destroy_commands_type1.iter().chain(c.destroy_commands_type2.iter()).all(|s| s.starts_with("#DestroyAllItemsWithinRadius ")));
    assert_eq!(c.special_commands, vec!["ChangeCurrencyBalance".to_string(), "ChangeFamePoints".to_string()]);
}

#[test]
fn vip_tier_takes_the_highest_tier() {
    let c = Config::from_shop_data(vec![]);
    let roles = [5u64, 1375091477448888412, 1375090778254217317, 1345511219263569984];
    let v = c.vip_tier(&roles).unwrap();
    assert_eq!(v.name, "Platinum");
    assert_eq!(v.discount_percent, 50);
}

#[test]
fn vip_tier_none_without_vip_roles() {
    let c = Config::from_shop_data(vec![]);
    assert!(c.vip_tier(&[1, 2, 3]).is_none());
    assert!(c.vip_tier(&[]).is_none());
}

#[test]
fn vip_tier_keeps_the_first_of_equal_tiers() {
    let mut c = Config::from_shop_data(vec![]);
    let mut m = HashMap::new();
    m.insert(10u64, VipRole { tier: 2, discount_percent: 20, name: "A".to_string() });
    m.insert(20u64, VipRole { tier: 2, discount_percent: 25, name: "B".to_string() });
    c.vip_roles = m;
    assert_eq!(c.vip_tier(&[20, 10]).unwrap().name, "B");
    assert_eq!(c.vip_tier(&[10, 20]).unwrap().name, "A");
}

#[test]
fn higher_tiers_never_give_less() {
    let c = Config::from_shop_data(vec![]);
    for a in c.vip_roles.values() {
        for b in c.vip_roles.values() {
            if a.tier < b.tier {
                assert!(a.discount_percent <= b.discount_percent);
            }
        }
    }
}
