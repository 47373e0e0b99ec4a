use vstd::prelude::*;
use crate::text::{
    all_ws_from, find_first_at_between, find_first_ws, first_at, first_ws, is_ws, lower_seq,
    range_eq_ignore_case,
};

verus! {

/// The closed command grammar: `/help` and `/start`.
#[derive(Debug, Clone, Copy, PartialEq, Eq, Structural)]
pub enum Command {
    Help,
    Start,
}

/// Result of parsing one message text against the grammar.
#[derive(Debug, Clone, Copy, PartialEq, Eq, Structural)]
pub enum ParseOutcome {
    /// A recognized command, optionally addressed to this bot.
    Recognized(Command),
    /// Text that begins with the command marker `/` but is no recognized
    /// command: an unknown keyword, a mention of some other bot, or
    /// trailing arguments (the commands take none).
    Unrecognized,
    /// Plain text without the command marker; it is silently ignored.
    NotACommand,
}

pub open spec fn help_keyword() -> Seq<char> {
    "help"@
}

pub open spec fn start_keyword() -> Seq<char> {
    "start"@
}

/// The command grammar. A command is the first whitespace-delimited word;
/// it must start with `/`, may carry an `@botname` suffix naming this bot
/// (compared ignoring ASCII case), and its keyword is matched ignoring
/// ASCII case; nothing but whitespace may follow, since both commands take
/// no arguments.
pub open spec fn spec_parse(text: Seq<char>, bot: Seq<char>) -> ParseOutcome {
    if text.len() == 0 || text[0] != '/' {
        ParseOutcome::NotACommand
    } else {
        let t = first_ws(text);
        let cmd_part = text.subrange(1, t);
        let a = first_at(cmd_part);
        let keyword = cmd_part.subrange(0, a);
        let trailing_ok = forall|j: int| t <= j < text.len() ==> is_ws(text[j]);
        let mention_ok = a == cmd_part.len() || lower_seq(
            cmd_part.subrange(a + 1, cmd_part.len() as int),
        ) == lower_seq(bot);
        if !trailing_ok || !mention_ok {
            ParseOutcome::Unrecognized
        } else if lower_seq(keyword) == help_keyword() {
            ParseOutcome::Recognized(Command::Help)
        } else if lower_seq(keyword) == start_keyword() {
            ParseOutcome::Recognized(Command::Start)
        } else {
            ParseOutcome::Unrecognized
        }
    }
}

/// The keyword `help` is already lower case.
pub proof fn lemma_lower_help()
    ensures
        lower_seq(help_keyword()) == help_keyword(),
{
    reveal_strlit("help");
    assert(lower_seq(help_keyword()) =~= help_keyword());
}

/// The keyword `start` is already lower case.
pub proof fn lemma_lower_start()
    ensures
        lower_seq(start_keyword()) == start_keyword(),
{
    reveal_strlit("start");
    assert(lower_seq(start_keyword()) =~= start_keyword());
}

/// The text `/help` parses to the Help command, whatever the bot's
/// username.
pub proof fn lemma_parse_help(bot: Seq<char>)
    ensures
        spec_parse("/help"@, bot) == ParseOutcome::Recognized(Command::Help),
{
    reveal_strlit("/help");
    reveal_strlit("help");
    let text = "/help"@;
    assert(text.len() == 5);
    assert(!is_ws(text[0]) && !is_ws(text[1]) && !is_ws(text[2]) && !is_ws(text[3]) && !is_ws(
        text[4],
    ));
    crate::text::lemma_first_ws_unique(text, 5);
    let cmd_part = text.subrange(1, 5);
    assert(cmd_part =~= "help"@);
    assert(cmd_part[0] != '@' && cmd_part[1] != '@' && cmd_part[2] != '@' && cmd_part[3] != '@');
    crate::text::lemma_first_at_unique(cmd_part, 4);
    assert(cmd_part.subrange(0, 4) =~= "help"@);
    lemma_lower_help();
}

/// The text `/help@botname`, addressed to this bot, parses to the Help
/// command; the username may not hold whitespace.
pub proof fn lemma_parse_help_with_mention(bot: Seq<char>)
    requires
        forall|j: int| 0 <= j < bot.len() ==> !is_ws(bot[j]),
    ensures
        spec_parse("/help@"@ + bot, bot) == ParseOutcome::Recognized(Command::Help),
{
    reveal_strlit("/help@");
    reveal_strlit("help");
    let text = "/help@"@ + bot;
    assert(text.len() == 6 + bot.len());
    assert(text[0] == '/' && text[1] == 'h' && text[2] == 'e' && text[3] == 'l' && text[4] == 'p'
        && text[5] == '@');
    assert forall|j: int| 0 <= j < text.len() implies !is_ws(text[j]) by {
        if j >= 6 {
            assert(text[j] == bot[j - 6]);
        }
    }
    crate::text::lemma_first_ws_unique(text, text.len() as int);
    let t = text.len() as int;
    let cmd_part = text.subrange(1, t);
    assert(cmd_part.len() == 5 + bot.len());
    assert(cmd_part[0] != '@' && cmd_part[1] != '@' && cmd_part[2] != '@' && cmd_part[3] != '@');
    assert(cmd_part[4] == '@');
    crate::text::lemma_first_at_unique(cmd_part, 4);
    assert(cmd_part.subrange(0, 4) =~= "help"@);
    assert(cmd_part.subrange(5, cmd_part.len() as int) =~= bot);
    lemma_lower_help();
}

/// The text `/start` parses to the Start command, whatever the bot's
/// username.
pub proof fn lemma_parse_start(bot: Seq<char>)
    ensures
        spec_parse("/start"@, bot) == ParseOutcome::Recognized(Command::Start),
{
    reveal_strlit("/start");
    reveal_strlit("start");
    reveal_strlit("help");
    let text = "/start"@;
    assert(text.len() == 6);
    assert(!is_ws(text[0]) && !is_ws(text[1]) && !is_ws(text[2]) && !is_ws(text[3]) && !is_ws(
        text[4],
    ) && !is_ws(text[5]));
    crate::text::lemma_first_ws_unique(text, 6);
    let cmd_part = text.subrange(1, 6);
    assert(cmd_part =~= "start"@);
    assert(cmd_part[0] != '@' && cmd_part[1] != '@' && cmd_part[2] != '@' && cmd_part[3] != '@'
        && cmd_part[4] != '@');
    crate::text::lemma_first_at_unique(cmd_part, 5);
    assert(cmd_part.subrange(0, 5) =~= "start"@);
    lemma_lower_help();
    lemma_lower_start();
    assert(lower_seq(cmd_part.subrange(0, 5)).len() == 5);
    assert(lower_seq(cmd_part.subrange(0, 5)) != help_keyword());
}

/// The text `/start@botname`, addressed to this bot, parses to the Start
/// command; the username may not hold whitespace.
pub proof fn lemma_parse_start_with_mention(bot: Seq<char>)
    requires
        forall|j: int| 0 <= j < bot.len() ==> !is_ws(bot[j]),
    ensures
        spec_parse("/start@"@ + bot, bot) == ParseOutcome::Recognized(Command::Start),
{
    reveal_strlit("/start@");
    reveal_strlit("start");
    reveal_strlit("help");
    let text = "/start@"@ + bot;
    assert(text.len() == 7 + bot.len());
    assert(text[0] == '/' && text[1] == 's' && text[2] == 't' && text[3] == 'a' && text[4] == 'r'
        && text[5] == 't' && text[6] == '@');
    assert forall|j: int| 0 <= j < text.len() implies !is_ws(text[j]) by {
        if j >= 7 {
            assert(text[j] == bot[j - 7]);
        }
    }
    crate::text::lemma_first_ws_unique(text, text.len() as int);
    let t = text.len() as int;
    let cmd_part = text.subrange(1, t);
    assert(cmd_part.len() == 6 + bot.len());
    assert(cmd_part[0] != '@' && cmd_part[1] != '@' && cmd_part[2] != '@' && cmd_part[3] != '@'
        && cmd_part[4] != '@');
    assert(cmd_part[5] == '@');
    crate::text::lemma_first_at_unique(cmd_part, 5);
    assert(cmd_part.subrange(0, 5) =~= "start"@);
    assert(cmd_part.subrange(6, cmd_part.len() as int) =~= bot);
    lemma_lower_help();
    lemma_lower_start();
    assert(lower_seq(cmd_part.subrange(0, 5)).len() == 5);
    assert(lower_seq(cmd_part.subrange(0, 5)) != help_keyword());
}

/// Command dispatcher's parser: matches `text` against the grammar of
/// `spec_parse`, with `bot_username` as this bot's handle.
pub fn parse_command(text: &str, bot_username: &str) -> (outcome: ParseOutcome)
    ensures
        outcome == spec_parse(text@, bot_username@),
{
    let n = text.unicode_len();
    if n == 0 {
        return ParseOutcome::NotACommand;
    }
    if text.get_char(0) != '/' {
        return ParseOutcome::NotACommand;
    }
    let t = find_first_ws(text);
    proof {
        crate::text::lemma_first_ws_props(text@);
        assert(!is_ws(text@[0]));
        assert(t >= 1);
    }
    let ghost cmd_part = text@.subrange(1, t as int);
    let a = find_first_at_between(text, 1, t);
    proof {
        crate::text::lemma_first_at_props(cmd_part);
    }
    let trailing_ok = all_ws_from(text, t);
    let mention_ok = if 1 + a == t {
        proof {
            assert(a == cmd_part.len());
        }
        true
    } else {
        proof {
            assert(a < cmd_part.len());
            assert(cmd_part.subrange(a + 1, cmd_part.len() as int) =~= text@.subrange(
                a + 2,
                t as int,
            ));
        }
        range_eq_ignore_case(text, a + 2, t, bot_username)
    };
    if !trailing_ok || !mention_ok {
        return ParseOutcome::Unrecognized;
    }
    proof {
        assert(cmd_part.subrange(0, a as int) =~= text@.subrange(1, 1 + a as int));
    }
    if range_eq_ignore_case(text, 1, 1 + a, "help") {
        proof {
            lemma_lower_help();
        }
        return ParseOutcome::Recognized(Command::Help);
    }
    if range_eq_ignore_case(text, 1, 1 + a, "start") {
        proof {
            lemma_lower_start();
        }
        return ParseOutcome::Recognized(Command::Start);
    }
    proof {
        lemma_lower_help();
        lemma_lower_start();
    }
    ParseOutcome::Unrecognized
}

} // verus!
