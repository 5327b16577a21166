//! The chat commands that the bot answers, read from a message's text.
use vstd::prelude::*;
use crate::text::{
    equals, has_prefix, has_suffix, is_ws, lemma_words_append_word, lemma_words_append_ws, no_ws,
    parse_i32, parse_i32_str, split_words, starts_with, strip_prefix, strip_suffix, trim_start_char,
    trim_start_matches_char, words,
};

verus! {

broadcast use vstd::string::group_string_axioms;

/// What an `!addcoin` message asks for.
#[derive(PartialEq, Eq, Debug)]
pub enum AddCoinRequest {
    /// Credit `amount` coins to the player with Discord id `user_id`.
    Grant { user_id: String, amount: i32 },
    /// The mention was well formed but the amount is not an `i32`.
    BadAmount,
    /// The arguments do not have the form `@user amount`.
    Usage,
}

/// A command read from a chat message.
#[derive(PartialEq, Eq, Debug)]
pub enum BotCommand {
    /// `!destroy`: post the panel with the clean-up buttons.
    Destroy,
    /// `!register <steam_id>`: `None` when no Steam id follows.
    Register(Option<String>),
    /// `!coin`: show the sender's balance.
    Coin,
    /// `!updateshop`: repost every shop channel.
    UpdateShop,
    /// `!addcoin @user amount`.
    AddCoin(AddCoinRequest),
    /// `!help`: list the commands.
    Help,
    /// Any other text.
    NotACommand,
}

/// The abstract form of an `!addcoin` request.
pub enum AddCoinSpec {
    Grant { user_id: Seq<char>, amount: i32 },
    BadAmount,
    Usage,
}

/// The abstract form of a command.
pub enum CommandSpec {
    Destroy,
    Register(Option<Seq<char>>),
    Coin,
    UpdateShop,
    AddCoin(AddCoinSpec),
    Help,
    NotACommand,
}

/// The Discord user id inside a mention `<@id>` or `<@!id>`.
pub open spec fn mention_user(m: Seq<char>) -> Option<Seq<char>> {
    if has_prefix(m, "<@"@) && has_suffix(m.skip(2), ">"@) {
        Some(trim_start_char(m.skip(2).take(m.len() - 3), '!'))
    } else {
        None
    }
}

/// What the arguments of an `!addcoin` message ask for.
pub open spec fn addcoin_spec(content: Seq<char>) -> AddCoinSpec {
    let args = words(content);
    if args.len() < 3 {
        AddCoinSpec::Usage
    } else {
        match mention_user(args[1]) {
            None => AddCoinSpec::Usage,
            Some(user_id) => match parse_i32(args[2]) {
                Some(amount) => AddCoinSpec::Grant { user_id, amount },
                None => AddCoinSpec::BadAmount,
            },
        }
    }
}

/// The command that a message with text `content` gives.
pub open spec fn command_spec(content: Seq<char>) -> CommandSpec {
    if content == "!destroy"@ {
        CommandSpec::Destroy
    } else if has_prefix(content, "!register "@) {
        let args = words(content);
        CommandSpec::Register(if args.len() >= 2 { Some(args[1]) } else { None })
    } else if content == "!coin"@ {
        CommandSpec::Coin
    } else if content == "!updateshop"@ {
        CommandSpec::UpdateShop
    } else if has_prefix(content, "!addcoin "@) {
        CommandSpec::AddCoin(addcoin_spec(content))
    } else if content == "!help"@ {
        CommandSpec::Help
    } else {
        CommandSpec::NotACommand
    }
}

impl AddCoinRequest {
    /// The abstract form of this request.
    pub open spec fn spec(&self) -> AddCoinSpec {
        match self {
            AddCoinRequest::Grant { user_id, amount } => AddCoinSpec::Grant {
                user_id: user_id@,
                amount: *amount,
            },
            AddCoinRequest::BadAmount => AddCoinSpec::BadAmount,
            AddCoinRequest::Usage => AddCoinSpec::Usage,
        }
    }
}

impl BotCommand {
    /// The abstract form of this command.
    pub open spec fn spec(&self) -> CommandSpec {
        match self {
            BotCommand::Destroy => CommandSpec::Destroy,
            BotCommand::Register(None) => CommandSpec::Register(None),
            BotCommand::Register(Some(id)) => CommandSpec::Register(Some(id@)),
            BotCommand::Coin => CommandSpec::Coin,
            BotCommand::UpdateShop => CommandSpec::UpdateShop,
            BotCommand::AddCoin(r) => CommandSpec::AddCoin(r.spec()),
            BotCommand::Help => CommandSpec::Help,
            BotCommand::NotACommand => CommandSpec::NotACommand,
        }
    }
}

/// The Discord user id inside a mention, as `strip_prefix("<@")`, `strip_suffix(">")` and
/// `trim_start_matches('!')` read it.
pub fn parse_mention(m: &str) -> (out: Option<String>)
    ensures
        out is Some <==> mention_user(m@) is Some,
        out matches Some(id) ==> mention_user(m@) == Some(id@),
{
    match strip_prefix(m, "<@") {
        None => {
            proof { reveal_strlit("<@"); }
            None
        },
        Some(rest) => {
            proof { reveal_strlit("<@"); }
            match strip_suffix(rest.as_str(), ">") {
                None => None,
                Some(inner) => {
                    proof {
                        reveal_strlit(">");
                        assert(m@.skip(2).take(m@.len() - 3) =~= inner@);
                    }
                    Some(trim_start_matches_char(inner.as_str(), '!'))
                },
            }
        },
    }
}

/// What the arguments of an `!addcoin` message ask for.
pub fn parse_addcoin(content: &str) -> (out: AddCoinRequest)
    ensures
        out.spec() == addcoin_spec(content@),
{
    let args = split_words(content);
    proof {
        assert(args@.len() == words(content@).len());
    }
    if args.len() < 3 {
        return AddCoinRequest::Usage;
    }
    proof {
        assert(args@.map_values(|w: String| w@)[1] == args@[1]@);
        assert(args@.map_values(|w: String| w@)[2] == args@[2]@);
    }
    match parse_mention(args[1].as_str()) {
        None => AddCoinRequest::Usage,
        Some(user_id) => match parse_i32_str(args[2].as_str()) {
            Some(amount) => AddCoinRequest::Grant { user_id, amount },
            None => AddCoinRequest::BadAmount,
        },
    }
}

/// The command that a message with text `content` gives.
pub fn parse_command(content: &str) -> (out: BotCommand)
    ensures
        out.spec() == command_spec(content@),
{
    if equals(content, "!destroy") {
        BotCommand::Destroy
    } else if starts_with(content, "!register ") {
        let args = split_words(content);
        proof {
            assert(args@.len() == words(content@).len());
        }
        if args.len() >= 2 {
            proof {
                assert(args@.map_values(|w: String| w@)[1] == args@[1]@);
            }
            let id = args[1].clone();
            BotCommand::Register(Some(id))
        } else {
            BotCommand::Register(None)
        }
    } else if equals(content, "!coin") {
        BotCommand::Coin
    } else if equals(content, "!updateshop") {
        BotCommand::UpdateShop
    } else if starts_with(content, "!addcoin ") {
        BotCommand::AddCoin(parse_addcoin(content))
    } else if equals(content, "!help") {
        BotCommand::Help
    } else {
        BotCommand::NotACommand
    }
}

/// The words of a command keyword written with its trailing space: the keyword alone.
proof fn lemma_keyword_words(kw: Seq<char>)
    requires
        kw.len() > 1,
        no_ws(kw.drop_last()),
        is_ws(kw.last()),
    ensures
        words(kw) == seq![kw.drop_last()],
{
    assert(kw.drop_last().push(kw.last()) =~= kw);
    lemma_words_append_ws(kw.drop_last(), kw.last());
    lemma_words_append_word(Seq::<char>::empty(), kw.drop_last());
    assert(Seq::<char>::empty() + kw.drop_last() =~= kw.drop_last());
    assert(words(Seq::<char>::empty()) =~= Seq::<Seq<char>>::empty());
    assert(Seq::<Seq<char>>::empty().push(kw.drop_last()) =~= seq![kw.drop_last()]);
}

/// The form `!register <steam_id>` that the help text gives, with a Steam id without whitespace,
/// asks to register that Steam id.
pub proof fn lemma_register_format(steam_id: Seq<char>)
    requires
        steam_id.len() > 0,
        no_ws(steam_id),
    ensures
        command_spec("!register "@ + steam_id) == CommandSpec::Register(Some(steam_id)),
{
    let kw = "!register "@;
    let content = kw + steam_id;
    reveal_strlit("!register ");
    reveal_strlit("!destroy");
    assert(no_ws(kw.drop_last())) by {
        assert forall|j: int| 0 <= j < kw.drop_last().len() implies !is_ws(
            #[trigger] kw.drop_last()[j],
        ) by {
            assert(kw.drop_last()[j] == kw[j]);
        }
    }
    lemma_keyword_words(kw);
    lemma_words_append_word(kw, steam_id);
    assert(content[1] == 'r');
    assert(content != "!destroy"@) by {
        assert("!destroy"@[1] == 'd');
    }
    assert(content.take(kw.len() as int) =~= kw);
}

/// The form `!addcoin @user amount` that the help text gives, with the mention of a user id and
/// an amount without whitespace that reads as an `i32`, asks to credit that amount to that user;
/// the `!` of a nickname mention is not part of the id.
pub proof fn lemma_addcoin_format(user_id: Seq<char>, amount_text: Seq<char>, amount: i32)
    requires
        no_ws(user_id),
        amount_text.len() > 0,
        no_ws(amount_text),
        parse_i32(amount_text) == Some(amount),
    ensures
        command_spec("!addcoin <@"@ + user_id + "> "@ + amount_text) == CommandSpec::AddCoin(
            AddCoinSpec::Grant { user_id: trim_start_char(user_id, '!'), amount },
        ),
{
    reveal_strlit("!addcoin <@");
    reveal_strlit("> ");
    reveal_strlit("!addcoin ");
    reveal_strlit("<@");
    reveal_strlit(">");
    reveal_strlit("!register ");
    reveal_strlit("!destroy");
    reveal_strlit("!coin");
    reveal_strlit("!updateshop");
    let kw = "!addcoin "@;
    let mention = "<@"@ + user_id + ">"@;
    let content = "!addcoin <@"@ + user_id + "> "@ + amount_text;
    let head = kw + mention;
    assert(content =~= head.push(' ') + amount_text);
    assert(no_ws(kw.drop_last())) by {
        assert forall|j: int| 0 <= j < kw.drop_last().len() implies !is_ws(
            #[trigger] kw.drop_last()[j],
        ) by {
            assert(kw.drop_last()[j] == kw[j]);
        }
    }
    assert(no_ws(mention)) by {
        assert forall|j: int| 0 <= j < mention.len() implies !is_ws(#[trigger] mention[j]) by {
            if 2 <= j < mention.len() - 1 {
                assert(mention[j] == user_id[j - 2]);
            }
        }
    }
    lemma_keyword_words(kw);
    lemma_words_append_word(kw, mention);
    lemma_words_append_ws(head, ' ');
    lemma_words_append_word(head.push(' '), amount_text);
    let args = words(content);
    assert(args =~= seq![kw.drop_last(), mention, amount_text]);
    assert(mention.take(2) =~= "<@"@);
    assert(mention.skip(2) =~= user_id + ">"@);
    assert(mention.skip(2).skip(mention.skip(2).len() - 1) =~= ">"@);
    assert(mention.skip(2).take(mention.len() - 3) =~= user_id);
    assert(content[1] == 'a');
    assert(content != "!destroy"@) by {
        assert("!destroy"@[1] == 'd');
    }
    assert(!has_prefix(content, "!register "@)) by {
        assert("!register "@[1] == 'r');
        assert(content.take(10)[1] == 'a');
    }
    assert(content != "!coin"@) by {
        assert("!coin"@[1] == 'c');
    }
    assert(content != "!updateshop"@) by {
        assert("!updateshop"@[1] == 'u');
    }
    assert(content.take(kw.len() as int) =~= kw);
}

} // verus!
