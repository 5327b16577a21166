use botshop::command::{parse_addcoin, parse_command, parse_mention, AddCoinRequest, BotCommand};

#[test]
fn exact_commands() {
    assert_eq!(parse_command("!destroy"), BotCommand::Destroy);
    assert_eq!(parse_command("!coin"), BotCommand::Coin);
    assert_eq!(parse_command("!updateshop"), BotCommand::UpdateShop);
    assert_eq!(parse_command("!help"), BotCommand::Help);
}

#[test]
fn other_text_is_not_a_command() {
    assert_eq!(parse_command("hello"), BotCommand::NotACommand);
    assert_eq!(parse_command("!coin "), BotCommand::NotACommand);
    assert_eq!(parse_command("!register"), BotCommand::NotACommand);
    assert_eq!(parse_command("!addcoin"), BotCommand::NotACommand);
}

#[test]
fn register_takes_the_second_word() {
    assert_eq!(
        parse_command("!register 76561198000000000"),
        BotCommand::Register(Some("76561198000000000".to_string()))
    );
    assert_eq!(parse_command("!register  abc  def"), BotCommand::Register(Some("abc".to_string())));
}

#[test]
fn register_without_id_asks_for_usage() {
    assert_eq!(parse_command("!register "), BotCommand::Register(None));
    assert_eq!(parse_command("!register    "), BotCommand::Register(None));
}

#[test]
fn addcoin_grants() {
    assert_eq!(
        parse_command("!addcoin <@123456> 50"),
        BotCommand::AddCoin(AddCoinRequest::Grant { user_id: "123456".to_string(), amount: 50 })
    );
    assert_eq!(
        parse_command("!addcoin <@!123456> -20 extra"),
        BotCommand::AddCoin(AddCoinRequest::Grant { user_id: "123456".to_string(), amount: -20 })
    );
}

#[test]
fn addcoin_with_bad_amount() {
    assert_eq!(parse_addcoin("!addcoin <@1> lots"), AddCoinRequest::BadAmount);
    assert_eq!(parse_addcoin("!addcoin <@1> 3000000000"), AddCoinRequest::BadAmount);
}

#[test]
fn addcoin_usage() {
    assert_eq!(parse_addcoin("!addcoin 123 50"), AddCoinRequest::Usage);
    assert_eq!(parse_addcoin("!addcoin <@123> "), AddCoinRequest::Usage);
    assert_eq!(parse_addcoin("!addcoin <@123 5"), AddCoinRequest::Usage);
}

#[test]
fn mentions() {
    assert_eq!(parse_mention("<@42>"), Some("42".to_string()));
    assert_eq!(parse_mention("<@!42>"), Some("42".to_string()));
    assert_eq!(parse_mention("<@>"), Some(String::new()));
    assert_eq!(parse_mention("<@"), None);
    assert_eq!(parse_mention("@42"), None);
}

#[test]
fn documented_formats_parse_to_their_parts() {
    let id = "7656119";
    assert_eq!(parse_command(&format!("!register {}", id)), BotCommand::Register(Some(id.to_string())));
    assert_eq!(
        parse_command(&format!("!addcoin <@{}> {}", "!99", "+15")),
        BotCommand::AddCoin(AddCoinRequest::Grant { user_id: "99".to_string(), amount: 15 })
    );
}
