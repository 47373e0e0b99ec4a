use tg_bot::command::{parse_command, Command, ParseOutcome};
use tg_bot::dispatch::{
    callback_plan, choose_action_text, help_text, inline_query_plan, message_plan,
    not_recognized_text, route, CallbackEvent, Event, InlineQueryEvent, MessageEvent, MessageRef,
};
use tg_bot::keyboard::build_keyboard;
use tg_bot::membership::{has_access, has_access_after_lookup, MembershipStatus};
use tg_bot::outbound::Outbound;

const BOT: &str = "testbot";

fn message(chat_id: i64, text: &str) -> MessageEvent {
    MessageEvent { chat_id, text: Some(text.to_string()) }
}

#[test]
fn access_denied_for_left_banned_restricted() {
    assert!(!has_access(MembershipStatus::Left));
    assert!(!has_access(MembershipStatus::Banned));
    assert!(!has_access(MembershipStatus::Restricted));
}

#[test]
fn access_granted_for_other_statuses() {
    assert!(has_access(MembershipStatus::Member));
    assert!(has_access(MembershipStatus::Administrator));
    assert!(has_access(MembershipStatus::Owner));
}

#[test]
fn failed_lookup_denies_access() {
    assert!(!has_access_after_lookup(None));
    assert!(has_access_after_lookup(Some(MembershipStatus::Member)));
    assert!(!has_access_after_lookup(Some(MembershipStatus::Banned)));
}

#[test]
fn keyboard_is_deterministic() {
    assert_eq!(build_keyboard(), build_keyboard());
}

#[test]
fn keyboard_structure() {
    let kb = build_keyboard();
    assert_eq!(kb.rows.len(), 2);
    assert_eq!(kb.rows[0].len(), 1);
    assert_eq!(kb.rows[1].len(), 1);
    assert_eq!(kb.rows[0][0].label, "Новый конфиг");
    assert_eq!(kb.rows[1][0].label, "Список конфигов");
    assert_eq!(kb.rows[0][0].payload, kb.rows[0][0].label);
    assert_eq!(kb.rows[1][0].payload, kb.rows[1][0].label);
}

#[test]
fn parse_help() {
    assert_eq!(parse_command("/help", BOT), ParseOutcome::Recognized(Command::Help));
}

#[test]
fn parse_help_case_insensitive() {
    assert_eq!(parse_command("/HELP", BOT), ParseOutcome::Recognized(Command::Help));
    assert_eq!(parse_command("/Help", BOT), ParseOutcome::Recognized(Command::Help));
}

#[test]
fn parse_help_with_mention() {
    assert_eq!(parse_command("/help@testbot", BOT), ParseOutcome::Recognized(Command::Help));
    assert_eq!(parse_command("/help@TestBot", BOT), ParseOutcome::Recognized(Command::Help));
}

#[test]
fn parse_help_wrong_bot() {
    assert_eq!(parse_command("/help@otherbot", BOT), ParseOutcome::Unrecognized);
}

#[test]
fn parse_start() {
    assert_eq!(parse_command("/start", BOT), ParseOutcome::Recognized(Command::Start));
    assert_eq!(parse_command("/START@testbot", BOT), ParseOutcome::Recognized(Command::Start));
}

#[test]
fn parse_trailing_whitespace_is_kept_valid() {
    assert_eq!(parse_command("/help ", BOT), ParseOutcome::Recognized(Command::Help));
    assert_eq!(parse_command("/start\n", BOT), ParseOutcome::Recognized(Command::Start));
}

#[test]
fn parse_unknown_command() {
    assert_eq!(parse_command("/unknown", BOT), ParseOutcome::Unrecognized);
    assert_eq!(parse_command("/", BOT), ParseOutcome::Unrecognized);
}

#[test]
fn parse_arguments_not_taken() {
    assert_eq!(parse_command("/help extra", BOT), ParseOutcome::Unrecognized);
}

#[test]
fn parse_plain_text() {
    assert_eq!(parse_command("hello", BOT), ParseOutcome::NotACommand);
    assert_eq!(parse_command("", BOT), ParseOutcome::NotACommand);
    assert_eq!(parse_command(" /help", BOT), ParseOutcome::NotACommand);
}

#[test]
fn denied_user_gets_silence() {
    let plan = message_plan(false, &message(7, "/start"), BOT);
    assert!(plan.is_empty());
}

#[test]
fn help_reply() {
    let plan = message_plan(true, &message(7, "/help"), BOT);
    assert_eq!(plan, vec![Outbound::SendText { chat_id: 7, text: help_text() }]);
}

#[test]
fn help_text_exact() {
    assert_eq!(
        help_text(),
        "These commands are supported:\n\n/help — Display this text\n/start — Start"
    );
}

#[test]
fn start_reply_with_keyboard() {
    let plan = message_plan(true, &message(7, "/start"), BOT);
    assert_eq!(
        plan,
        vec![Outbound::SendTextWithKeyboard {
            chat_id: 7,
            text: choose_action_text(),
            keyboard: build_keyboard(),
        }]
    );
    assert_eq!(choose_action_text(), "Выберите действие:");
}

#[test]
fn unknown_command_reply() {
    let plan = message_plan(true, &message(7, "/oops"), BOT);
    assert_eq!(plan, vec![Outbound::SendText { chat_id: 7, text: not_recognized_text() }]);
    assert_eq!(not_recognized_text(), "Команда не найдена");
}

#[test]
fn plain_text_ignored() {
    assert!(message_plan(true, &message(7, "hello"), BOT).is_empty());
}

#[test]
fn missing_text_ignored() {
    let msg = MessageEvent { chat_id: 7, text: None };
    assert!(message_plan(true, &msg, BOT).is_empty());
}

#[test]
fn callback_without_payload_still_acknowledged() {
    let event = CallbackEvent {
        callback_id: "cb1".to_string(),
        payload: None,
        message: Some(MessageRef { chat_id: 7, message_id: 40 }),
        inline_message_id: None,
    };
    let plan = callback_plan(&event);
    assert_eq!(plan, vec![Outbound::AnswerCallback { callback_id: "cb1".to_string() }]);
}

#[test]
fn callback_edits_regular_message() {
    let event = CallbackEvent {
        callback_id: "cb2".to_string(),
        payload: Some("Список конфигов".to_string()),
        message: Some(MessageRef { chat_id: 7, message_id: 40 }),
        inline_message_id: None,
    };
    let plan = callback_plan(&event);
    assert_eq!(plan.len(), 2);
    assert_eq!(plan[0], Outbound::AnswerCallback { callback_id: "cb2".to_string() });
    assert_eq!(
        plan[1],
        Outbound::EditMessageText {
            chat_id: 7,
            message_id: 40,
            text: "You chose: Список конфигов".to_string(),
        }
    );
}

#[test]
fn callback_edits_inline_message() {
    let event = CallbackEvent {
        callback_id: "cb3".to_string(),
        payload: Some("Новый конфиг".to_string()),
        message: None,
        inline_message_id: Some("inl9".to_string()),
    };
    let plan = callback_plan(&event);
    assert_eq!(plan.len(), 2);
    assert_eq!(plan[0], Outbound::AnswerCallback { callback_id: "cb3".to_string() });
    assert_eq!(
        plan[1],
        Outbound::EditInlineMessageText {
            inline_message_id: "inl9".to_string(),
            text: "You chose: Новый конфиг".to_string(),
        }
    );
}

#[test]
fn callback_without_context_only_acknowledges() {
    let event = CallbackEvent {
        callback_id: "cb4".to_string(),
        payload: Some("Новый конфиг".to_string()),
        message: None,
        inline_message_id: None,
    };
    let plan = callback_plan(&event);
    assert_eq!(plan, vec![Outbound::AnswerCallback { callback_id: "cb4".to_string() }]);
}

#[test]
fn inline_query_single_article() {
    let event = InlineQueryEvent { query_id: "q1".to_string(), query: "anything".to_string() };
    let plan = inline_query_plan(&event);
    assert_eq!(plan.len(), 1);
    match &plan[0] {
        Outbound::AnswerInlineQuery { query_id, articles } => {
            assert_eq!(query_id, "q1");
            assert_eq!(articles.len(), 1);
            assert_eq!(articles[0].id, "0");
            assert_eq!(articles[0].title, "Выберите действие");
            assert_eq!(articles[0].content, "Выберите действие:");
            assert_eq!(articles[0].keyboard, build_keyboard());
        }
        other => panic!("unexpected operation: {:?}", other),
    }
}

#[test]
fn inline_query_ignores_query_text() {
    let a = inline_query_plan(&InlineQueryEvent {
        query_id: "q".to_string(),
        query: "".to_string(),
    });
    let b = inline_query_plan(&InlineQueryEvent {
        query_id: "q".to_string(),
        query: "какой-то текст".to_string(),
    });
    assert_eq!(a, b);
}

#[test]
fn route_message_gated_by_lookup() {
    let event = Event::Message(message(7, "/start"));
    assert!(route(&event, None, BOT).is_empty());
    assert!(route(&event, Some(MembershipStatus::Banned), BOT).is_empty());
    assert_eq!(
        route(&event, Some(MembershipStatus::Member), BOT),
        message_plan(true, &message(7, "/start"), BOT)
    );
}

#[test]
fn route_callback_and_inline_not_gated() {
    let callback = CallbackEvent {
        callback_id: "cb5".to_string(),
        payload: None,
        message: None,
        inline_message_id: None,
    };
    let plan = route(&Event::Callback(callback.clone()), None, BOT);
    assert_eq!(plan, callback_plan(&callback));

    let query = InlineQueryEvent { query_id: "q2".to_string(), query: "x".to_string() };
    let plan = route(&Event::InlineQuery(query.clone()), None, BOT);
    assert_eq!(plan, inline_query_plan(&query));
}
