use vstd::prelude::*;
use crate::keyboard::{ButtonModel, Keyboard};

verus! {

/// One static article answering an inline query: a result identifier, a
/// visible title, the message text it would send, and an attached keyboard.
#[derive(Debug, Clone, PartialEq, Eq)]
pub struct InlineArticle {
    pub id: String,
    pub title: String,
    pub content: String,
    pub keyboard: Keyboard,
}

/// Mathematical model of an inline article.
#[verifier::ext_equal]
pub struct ArticleModel {
    pub id: Seq<char>,
    pub title: Seq<char>,
    pub content: Seq<char>,
    pub keyboard: Seq<Seq<ButtonModel>>,
}

impl View for InlineArticle {
    type V = ArticleModel;

    open spec fn view(&self) -> ArticleModel {
        ArticleModel {
            id: self.id@,
            title: self.title@,
            content: self.content@,
            keyboard: self.keyboard@,
        }
    }
}

/// One outbound operation handed to the transport: the full set the bot
/// ever performs.
#[derive(Debug, Clone, PartialEq, Eq)]
pub enum Outbound {
    /// Send a plain text message to a chat.
    SendText { chat_id: i64, text: String },
    /// Send a text message with an inline keyboard attached.
    SendTextWithKeyboard { chat_id: i64, text: String, keyboard: Keyboard },
    /// Acknowledge a callback query so client-side loading indicators clear.
    AnswerCallback { callback_id: String },
    /// Edit the text of a regular chat message.
    EditMessageText { chat_id: i64, message_id: i32, text: String },
    /// Edit the text of a standalone inline message.
    EditInlineMessageText { inline_message_id: String, text: String },
    /// Answer an inline query with a list of result articles.
    AnswerInlineQuery { query_id: String, articles: Vec<InlineArticle> },
}

/// Mathematical model of an outbound operation.
#[verifier::ext_equal]
pub enum OutboundModel {
    SendText { chat_id: int, text: Seq<char> },
    SendTextWithKeyboard { chat_id: int, text: Seq<char>, keyboard: Seq<Seq<ButtonModel>> },
    AnswerCallback { callback_id: Seq<char> },
    EditMessageText { chat_id: int, message_id: int, text: Seq<char> },
    EditInlineMessageText { inline_message_id: Seq<char>, text: Seq<char> },
    AnswerInlineQuery { query_id: Seq<char>, articles: Seq<ArticleModel> },
}

impl View for Outbound {
    type V = OutboundModel;

    open spec fn view(&self) -> OutboundModel {
        match self {
            Outbound::SendText { chat_id, text } => OutboundModel::SendText {
                chat_id: *chat_id as int,
                text: text@,
            },
            Outbound::SendTextWithKeyboard { chat_id, text, keyboard } =>
                OutboundModel::SendTextWithKeyboard {
                    chat_id: *chat_id as int,
                    text: text@,
                    keyboard: keyboard@,
                },
            Outbound::AnswerCallback { callback_id } => OutboundModel::AnswerCallback {
                callback_id: callback_id@,
            },
            Outbound::EditMessageText { chat_id, message_id, text } =>
                OutboundModel::EditMessageText {
                    chat_id: *chat_id as int,
                    message_id: *message_id as int,
                    text: text@,
                },
            Outbound::EditInlineMessageText { inline_message_id, text } =>
                OutboundModel::EditInlineMessageText {
                    inline_message_id: inline_message_id@,
                    text: text@,
                },
            Outbound::AnswerInlineQuery { query_id, articles } =>
                OutboundModel::AnswerInlineQuery {
                    query_id: query_id@,
                    articles: articles@.map_values(|a: InlineArticle| a@),
                },
        }
    }
}

/// The model of a whole plan: the outbound operations one inbound event
/// gives rise to, in the order they must be performed.
pub open spec fn plan_model(plan: Seq<Outbound>) -> Seq<OutboundModel> {
    plan.map_values(|o: Outbound| o@)
}

/// Whether an operation is an edit of an existing message.
pub open spec fn is_edit(op: OutboundModel) -> bool {
    ||| op matches OutboundModel::EditMessageText { .. }
    ||| op matches OutboundModel::EditInlineMessageText { .. }
}

/// Whether an operation sends a new message.
pub open spec fn is_send(op: OutboundModel) -> bool {
    ||| op matches OutboundModel::SendText { .. }
    ||| op matches OutboundModel::SendTextWithKeyboard { .. }
}

} // verus!
