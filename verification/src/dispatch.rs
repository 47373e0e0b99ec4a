use vstd::prelude::*;
use vstd::string::StringExecFns;
use crate::command::{spec_parse, parse_command, Command, ParseOutcome};
use crate::keyboard::{build_keyboard, spec_keyboard};
use crate::membership::{grants_access, has_access_after_lookup, MembershipStatus};
use crate::outbound::{
    is_send, plan_model, ArticleModel, InlineArticle, Outbound, OutboundModel,
};

verus! {

/// Reply to `/help`: the static list of supported commands.
pub open spec fn spec_help_text() -> Seq<char> {
    "These commands are supported:\n\n/help — Display this text\n/start — Start"@
}

pub fn help_text() -> (r: String)
    ensures
        r@ == spec_help_text(),
{
    "These commands are supported:\n\n/help — Display this text\n/start — Start".to_owned()
}

/// Reply to `/start`, and the message content of the inline article.
pub open spec fn spec_choose_action_text() -> Seq<char> {
    "Выберите действие:"@
}

pub fn choose_action_text() -> (r: String)
    ensures
        r@ == spec_choose_action_text(),
{
    "Выберите действие:".to_owned()
}

/// Reply to a malformed command.
pub open spec fn spec_not_recognized_text() -> Seq<char> {
    "Команда не найдена"@
}

pub fn not_recognized_text() -> (r: String)
    ensures
        r@ == spec_not_recognized_text(),
{
    "Команда не найдена".to_owned()
}

/// Prefix of the confirmation a pressed button edits into its message.
pub open spec fn spec_chose_prefix() -> Seq<char> {
    "You chose: "@
}

pub fn chose_prefix_text() -> (r: String)
    ensures
        r@ == spec_chose_prefix(),
{
    "You chose: ".to_owned()
}

/// Title of the single inline query result article.
pub open spec fn spec_inline_title() -> Seq<char> {
    "Выберите действие"@
}

pub fn inline_title_text() -> (r: String)
    ensures
        r@ == spec_inline_title(),
{
    "Выберите действие".to_owned()
}

/// Identifier of the single inline query result article.
pub open spec fn spec_inline_article_id() -> Seq<char> {
    "0"@
}

pub fn inline_article_id_text() -> (r: String)
    ensures
        r@ == spec_inline_article_id(),
{
    "0".to_owned()
}

/// A text message event: the chat it arrived in and its text, if any.
#[derive(Debug, Clone, PartialEq, Eq)]
pub struct MessageEvent {
    pub chat_id: i64,
    pub text: Option<String>,
}

#[verifier::ext_equal]
pub struct MessageEventModel {
    pub chat_id: int,
    pub text: Option<Seq<char>>,
}

impl View for MessageEvent {
    type V = MessageEventModel;

    open spec fn view(&self) -> MessageEventModel {
        MessageEventModel {
            chat_id: self.chat_id as int,
            text: match self.text {
                Some(t) => Some(t@),
                None => None,
            },
        }
    }
}

/// Chat and message identifiers of a regular chat message.
#[derive(Debug, Clone, Copy, PartialEq, Eq, Structural)]
pub struct MessageRef {
    pub chat_id: i64,
    pub message_id: i32,
}

/// A button-press event: the callback to acknowledge, the payload chosen,
/// and the originating context to edit — a regular chat message, a
/// standalone inline message, or neither.
#[derive(Debug, Clone, PartialEq, Eq)]
pub struct CallbackEvent {
    pub callback_id: String,
    pub payload: Option<String>,
    pub message: Option<MessageRef>,
    pub inline_message_id: Option<String>,
}

#[verifier::ext_equal]
pub struct CallbackEventModel {
    pub callback_id: Seq<char>,
    pub payload: Option<Seq<char>>,
    pub message: Option<MessageRef>,
    pub inline_message_id: Option<Seq<char>>,
}

impl View for CallbackEvent {
    type V = CallbackEventModel;

    open spec fn view(&self) -> CallbackEventModel {
        CallbackEventModel {
            callback_id: self.callback_id@,
            payload: match self.payload {
                Some(p) => Some(p@),
                None => None,
            },
            message: self.message,
            inline_message_id: match self.inline_message_id {
                Some(s) => Some(s@),
                None => None,
            },
        }
    }
}

/// An inline query event: its identifier and the query text typed.
#[derive(Debug, Clone, PartialEq, Eq)]
pub struct InlineQueryEvent {
    pub query_id: String,
    pub query: String,
}

#[verifier::ext_equal]
pub struct InlineQueryEventModel {
    pub query_id: Seq<char>,
    pub query: Seq<char>,
}

impl View for InlineQueryEvent {
    type V = InlineQueryEventModel;

    open spec fn view(&self) -> InlineQueryEventModel {
        InlineQueryEventModel { query_id: self.query_id@, query: self.query@ }
    }
}

/// The closed set of inbound events the bot handles.
#[derive(Debug, Clone, PartialEq, Eq)]
pub enum Event {
    Message(MessageEvent),
    Callback(CallbackEvent),
    InlineQuery(InlineQueryEvent),
}

#[verifier::ext_equal]
pub enum EventModel {
    Message(MessageEventModel),
    Callback(CallbackEventModel),
    InlineQuery(InlineQueryEventModel),
}

impl View for Event {
    type V = EventModel;

    open spec fn view(&self) -> EventModel {
        match self {
            Event::Message(m) => EventModel::Message(m@),
            Event::Callback(c) => EventModel::Callback(c@),
            Event::InlineQuery(q) => EventModel::InlineQuery(q@),
        }
    }
}

/// The message path. A denied user's message is dropped with no reply at
/// all; an allowed user's text is parsed, and each parse outcome gets the
/// reply the command dispatcher owes it.
pub open spec fn spec_message_plan(access: bool, m: MessageEventModel, bot: Seq<char>) -> Seq<
    OutboundModel,
> {
    if !access {
        Seq::empty()
    } else {
        match m.text {
            None => Seq::empty(),
            Some(t) => match spec_parse(t, bot) {
                ParseOutcome::NotACommand => Seq::empty(),
                ParseOutcome::Recognized(Command::Help) => seq![
                    OutboundModel::SendText { chat_id: m.chat_id, text: spec_help_text() },
                ],
                ParseOutcome::Recognized(Command::Start) => seq![
                    OutboundModel::SendTextWithKeyboard {
                        chat_id: m.chat_id,
                        text: spec_choose_action_text(),
                        keyboard: spec_keyboard(),
                    },
                ],
                ParseOutcome::Unrecognized => seq![
                    OutboundModel::SendText {
                        chat_id: m.chat_id,
                        text: spec_not_recognized_text(),
                    },
                ],
            },
        }
    }
}

/// The callback path: acknowledge first, always; then, if a payload was
/// chosen and an originating context exists, edit that context's text to
/// the confirmation string.
pub open spec fn spec_callback_plan(c: CallbackEventModel) -> Seq<OutboundModel> {
    let ack = OutboundModel::AnswerCallback { callback_id: c.callback_id };
    match c.payload {
        None => seq![ack],
        Some(p) => {
            let confirmation = spec_chose_prefix() + p;
            match c.message {
                Some(mr) => seq![
                    ack,
                    OutboundModel::EditMessageText {
                        chat_id: mr.chat_id as int,
                        message_id: mr.message_id as int,
                        text: confirmation,
                    },
                ],
                None => match c.inline_message_id {
                    Some(id) => seq![
                        ack,
                        OutboundModel::EditInlineMessageText {
                            inline_message_id: id,
                            text: confirmation,
                        },
                    ],
                    None => seq![ack],
                },
            }
        },
    }
}

/// The single static article the inline query path answers with.
pub open spec fn spec_inline_article() -> ArticleModel {
    ArticleModel {
        id: spec_inline_article_id(),
        title: spec_inline_title(),
        content: spec_choose_action_text(),
        keyboard: spec_keyboard(),
    }
}

/// The inline query path: whatever the query text, answer it with exactly
/// one static article carrying the fixed keyboard.
pub open spec fn spec_inline_query_plan(q: InlineQueryEventModel) -> Seq<OutboundModel> {
    seq![
        OutboundModel::AnswerInlineQuery {
            query_id: q.query_id,
            articles: seq![spec_inline_article()],
        },
    ]
}

/// The router: one branch per event variant. Only the message path is
/// gated on membership; a failed lookup (`None`) denies access.
pub open spec fn spec_route(
    e: EventModel,
    lookup: Option<MembershipStatus>,
    bot: Seq<char>,
) -> Seq<OutboundModel> {
    match e {
        EventModel::Message(m) => spec_message_plan(
            lookup matches Some(status) && grants_access(status),
            m,
            bot,
        ),
        EventModel::Callback(c) => spec_callback_plan(c),
        EventModel::InlineQuery(q) => spec_inline_query_plan(q),
    }
}

/// Command dispatcher for one message event.
pub fn message_plan(access: bool, msg: &MessageEvent, bot_username: &str) -> (plan: Vec<Outbound>)
    ensures
        plan_model(plan@) == spec_message_plan(access, msg@, bot_username@),
{
    let mut plan: Vec<Outbound> = Vec::new();
    if !access {
        proof {
            assert(plan_model(plan@) =~= spec_message_plan(access, msg@, bot_username@));
        }
        return plan;
    }
    match &msg.text {
        None => {},
        Some(t) => {
            match parse_command(t.as_str(), bot_username) {
                ParseOutcome::NotACommand => {},
                ParseOutcome::Recognized(Command::Help) => {
                    plan.push(Outbound::SendText { chat_id: msg.chat_id, text: help_text() });
                },
                ParseOutcome::Recognized(Command::Start) => {
                    plan.push(
                        Outbound::SendTextWithKeyboard {
                            chat_id: msg.chat_id,
                            text: choose_action_text(),
                            keyboard: build_keyboard(),
                        },
                    );
                },
                ParseOutcome::Unrecognized => {
                    plan.push(
                        Outbound::SendText { chat_id: msg.chat_id, text: not_recognized_text() },
                    );
                },
            }
        },
    }
    proof {
        assert(plan_model(plan@) =~~= spec_message_plan(access, msg@, bot_username@));
    }
    plan
}

/// Callback responder for one button-press event.
pub fn callback_plan(event: &CallbackEvent) -> (plan: Vec<Outbound>)
    ensures
        plan_model(plan@) == spec_callback_plan(event@),
{
    let mut plan: Vec<Outbound> = Vec::new();
    plan.push(Outbound::AnswerCallback { callback_id: event.callback_id.clone() });
    match &event.payload {
        None => {},
        Some(p) => {
            let mut confirmation = chose_prefix_text();
            confirmation.append(p.as_str());
            match &event.message {
                Some(mr) => {
                    plan.push(
                        Outbound::EditMessageText {
                            chat_id: mr.chat_id,
                            message_id: mr.message_id,
                            text: confirmation,
                        },
                    );
                },
                None => {
                    match &event.inline_message_id {
                        Some(id) => {
                            plan.push(
                                Outbound::EditInlineMessageText {
                                    inline_message_id: id.clone(),
                                    text: confirmation,
                                },
                            );
                        },
                        None => {},
                    }
                },
            }
        },
    }
    proof {
        assert(plan_model(plan@) =~~= spec_callback_plan(event@));
    }
    plan
}

/// Inline query responder for one inline query event.
pub fn inline_query_plan(event: &InlineQueryEvent) -> (plan: Vec<Outbound>)
    ensures
        plan_model(plan@) == spec_inline_query_plan(event@),
{
    let article = InlineArticle {
        id: inline_article_id_text(),
        title: inline_title_text(),
        content: choose_action_text(),
        keyboard: build_keyboard(),
    };
    let mut articles: Vec<InlineArticle> = Vec::new();
    articles.push(article);
    let mut plan: Vec<Outbound> = Vec::new();
    plan.push(Outbound::AnswerInlineQuery { query_id: event.query_id.clone(), articles });
    proof {
        assert(plan_model(plan@) =~~= spec_inline_query_plan(event@));
    }
    plan
}

/// Dispatch router: routes one inbound event to its handler. `lookup` is
/// the membership status the platform returned for the sender, `None` if
/// the lookup failed; it only gates the message path.
pub fn route(event: &Event, lookup: Option<MembershipStatus>, bot_username: &str) -> (plan: Vec<
    Outbound,
>)
    ensures
        plan_model(plan@) == spec_route(event@, lookup, bot_username@),
{
    match event {
        Event::Message(m) => {
            let access = has_access_after_lookup(lookup);
            message_plan(access, m, bot_username)
        },
        Event::Callback(c) => callback_plan(c),
        Event::InlineQuery(q) => inline_query_plan(q),
    }
}

/// Access denial is silent: a denied user's message produces no outbound
/// operation at all, whatever the message was.
pub proof fn lemma_denied_message_is_silent(m: MessageEventModel, bot: Seq<char>)
    ensures
        spec_message_plan(false, m, bot) == Seq::<OutboundModel>::empty(),
{
}

/// The callback path acknowledges the callback first, before any edit and
/// even when the payload is absent; nothing in the plan but the one
/// acknowledgment and, possibly, one edit after it.
pub proof fn lemma_callback_acknowledges_first(c: CallbackEventModel)
    ensures
        ({
            let plan = spec_callback_plan(c);
            &&& plan.len() >= 1
            &&& plan[0] == (OutboundModel::AnswerCallback { callback_id: c.callback_id })
            &&& forall|i: int| 0 < i < plan.len() ==> crate::outbound::is_edit(plan[i])
        }),
{
}

/// A chosen payload in a regular-message context edits that message's text
/// to exactly the confirmation string: the prefix, then the payload
/// verbatim.
pub proof fn lemma_callback_edits_confirmation(c: CallbackEventModel)
    ensures
        c.payload matches Some(p) ==> c.message matches Some(mr)
            ==> spec_callback_plan(c) == seq![
            (OutboundModel::AnswerCallback { callback_id: c.callback_id }),
            (OutboundModel::EditMessageText {
                chat_id: mr.chat_id as int,
                message_id: mr.message_id as int,
                text: spec_chose_prefix() + p,
            }),
        ],
{
}

/// Every inline query, whatever its text, is answered with exactly one
/// article, and that article's keyboard is exactly the keyboard builder's
/// output.
pub proof fn lemma_inline_query_single_article(q: InlineQueryEventModel)
    ensures
        ({
            let plan = spec_inline_query_plan(q);
            &&& plan.len() == 1
            &&& plan[0] matches OutboundModel::AnswerInlineQuery { query_id, articles }
                && query_id == q.query_id && articles.len() == 1 && articles[0].keyboard
                == spec_keyboard()
        }),
{
}

/// An allowed user's text that begins with the command marker `/` always
/// gets exactly one reply, a send into the same chat.
pub proof fn lemma_marked_text_always_answered(m: MessageEventModel, bot: Seq<char>)
    requires
        m.text matches Some(t) && t.len() > 0 && t[0] == '/',
    ensures
        spec_message_plan(true, m, bot).len() == 1,
        is_send(spec_message_plan(true, m, bot)[0]),
        ({
            let op = spec_message_plan(true, m, bot)[0];
            ||| op matches OutboundModel::SendText { chat_id, .. } && chat_id == m.chat_id
            ||| op matches OutboundModel::SendTextWithKeyboard { chat_id, .. } && chat_id
                == m.chat_id
        }),
{
}

/// Text without the command marker is silently ignored, even for an
/// allowed user.
pub proof fn lemma_plain_text_ignored(m: MessageEventModel, bot: Seq<char>)
    requires
        m.text matches Some(t) && (t.len() == 0 || t[0] != '/'),
    ensures
        spec_message_plan(true, m, bot) == Seq::<OutboundModel>::empty(),
{
}

} // verus!
