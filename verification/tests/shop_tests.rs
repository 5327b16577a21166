use botshop::shop::{
    button_rows, default_quantity, find_button, is_special_command, order_total,
    purchase_commands, shop_channel_id, substitute_steam_id_in_commands, ButtonPosition, ShopButton,
    ShopConfig, ShopItem,
};

fn button(trigger: &str, commands: &[&str]) -> ShopButton {
    ShopButton {
        text: format!("buy {}", trigger),
        trigger: trigger.to_string(),
        commands: commands.iter().map(|c| c.to_string()).collect(),
        quantity: default_quantity(),
    }
}

fn catalogue() -> Vec<ShopConfig> {
    vec![
        ShopConfig {
            channel: "111".to_string(),
            items: vec![ShopItem {
                name: "Apple".to_string(),
                price: 10,
                image: None,
                buttons: vec![button("apple", &["#SpawnItem Apple"]), button("dup", &["a"])],
            }],
        },
        ShopConfig {
            channel: "not a number".to_string(),
            items: vec![
                ShopItem { name: "Empty".to_string(), price: 1, image: None, buttons: vec![] },
                ShopItem {
                    name: "Coins".to_string(),
                    price: 5,
                    image: Some("x.png".to_string()),
                    buttons: vec![button("dup", &["b"]), button("coins", &["#ChangeCurrencyBalance {steam_id} 100"])],
                },
            ],
        },
    ]
}

#[test]
fn default_quantity_is_one() {
    assert_eq!(default_quantity(), 1);
}

#[test]
fn find_button_gives_first_match() {
    let shops = catalogue();
    assert_eq!(find_button(&shops, "apple"), Some(ButtonPosition { shop: 0, item: 0, button: 0 }));
    assert_eq!(find_button(&shops, "dup"), Some(ButtonPosition { shop: 0, item: 0, button: 1 }));
    assert_eq!(find_button(&shops, "coins"), Some(ButtonPosition { shop: 1, item: 1, button: 1 }));
    assert_eq!(find_button(&shops, "pear"), None);
    assert_eq!(find_button(&[], "apple"), None);
}

#[test]
fn substitution_replaces_every_placeholder() {
    let cmds = vec!["#Give {steam_id} Apple".to_string(), "#Tp {steam_id} {steam_id}".to_string(), "#Plain".to_string()];
    assert_eq!(
        substitute_steam_id_in_commands(&cmds, "765"),
        vec!["#Give 765 Apple".to_string(), "#Tp 765 765".to_string(), "#Plain".to_string()]
    );
}

#[test]
fn special_commands_are_recognised() {
    let special = vec!["ChangeCurrencyBalance".to_string(), "ChangeFamePoints".to_string()];
    assert!(is_special_command("#ChangeFamePoints 765 10", &special));
    assert!(!is_special_command("#SpawnItem Apple", &special));
    assert!(!is_special_command("anything", &[]));
}

#[test]
fn purchase_commands_add_location_where_needed() {
    let special = vec!["ChangeCurrencyBalance".to_string()];
    let cmds = vec![
        "#SpawnItem Apple 1".to_string(),
        "#ChangeCurrencyBalance {steam_id} 100".to_string(),
        "#SpawnItem Car Location {steam_id}".to_string(),
    ];
    assert_eq!(
        purchase_commands(&cmds, "765", &special),
        vec![
            "#SpawnItem Apple 1 Location 765".to_string(),
            "#ChangeCurrencyBalance 765 100".to_string(),
            "#SpawnItem Car Location 765".to_string(),
        ]
    );
}

#[test]
fn order_total_multiplies() {
    assert_eq!(order_total(250, 4), 1000);
    assert_eq!(order_total(7, 0), 0);
}

#[test]
fn channel_ids() {
    let shops = catalogue();
    assert_eq!(shop_channel_id(&shops[0]), Some(111));
    assert_eq!(shop_channel_id(&shops[1]), None);
}

#[test]
fn buttons_go_in_rows_of_five() {
    assert_eq!(button_rows(0), vec![]);
    assert_eq!(button_rows(3), vec![(0, 3)]);
    assert_eq!(button_rows(5), vec![(0, 5)]);
    assert_eq!(button_rows(12), vec![(0, 5), (5, 10), (10, 12)]);
}
