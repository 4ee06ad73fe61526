use vstd::prelude::*;

use crate::telegram::{
    ChatID, ChatType, EditMessageCaption, EditMessageReplyMarkup, Error, InlineKeyboardButton,
    InlineKeyboardMarkup, Message, MessageOrBool, ReplyMarkup,
};

verus! {

/// How a handler left an update.
#[derive(Clone, Copy, Debug, PartialEq, Eq, Structural)]
pub enum Status {
    /// The update was not for this handler.
    Ignored,
    /// The handler is done with the update.
    Completed,
}

/// What the first look at a channel post decides: posts that are not from
/// a channel are ignored; forwarded posts and posts with reply markup
/// (likely from a bot) cannot be edited and are done; others go on.
pub open spec fn initial_filter_spec(message: Message) -> Option<Status> {
    if message.chat.chat_type != ChatType::Channel {
        Some(Status::Ignored)
    } else if message.forward_date is Some {
        Some(Status::Completed)
    } else if message.reply_markup is Some {
        Some(Status::Completed)
    } else {
        None
    }
}

/// Filters updates to ignore any non-channel type messages and flags as
/// completed forwarded messages (can't edit) and messages with reply
/// markup (likely from a bot and unable to be edited).
pub fn initial_filter(message: &Message) -> (r: Result<Option<Status>, Error>)
    ensures
        r == Ok::<Option<Status>, Error>(initial_filter_spec(*message)),
{
    if message.chat.chat_type != ChatType::Channel {
        return Ok(Some(Status::Ignored));
    }
    if message.forward_date.is_some() {
        return Ok(Some(Status::Completed));
    }
    if message.reply_markup.is_some() {
        return Ok(Some(Status::Completed));
    }
    Ok(None)
}

/// Constructs an editMessageCaption request for a message with the given
/// caption.
pub fn edited_caption(message: &Message, caption: String) -> (r: EditMessageCaption)
    ensures
        r.chat_id == ChatID::Identifier(message.chat.id),
        r.message_id == Some(message.message_id),
        r.inline_message_id is None,
        r.caption == Some(caption),
        r.reply_markup is None,
{
    EditMessageCaption {
        chat_id: message.chat_id(),
        message_id: Some(message.message_id),
        inline_message_id: None,
        caption: Some(caption),
        reply_markup: None,
    }
}

/// Constructs an editMessageReplyMarkup request for a message with a
/// keyboard of one button of the given text and URL.
pub fn edited_markup(message: &Message, text: String, url: String) -> (r: EditMessageReplyMarkup)
    ensures
        r.chat_id == ChatID::Identifier(message.chat.id),
        r.message_id == Some(message.message_id),
        r.inline_message_id is None,
        r.reply_markup matches Some(ReplyMarkup::InlineKeyboardMarkup(k)) && k.inline_keyboard@.len()
            == 1 && k.inline_keyboard@[0]@ == seq![
            (InlineKeyboardButton {
                text,
                url: Some(url),
                callback_data: None,
                switch_inline_query: None,
                switch_inline_query_current_chat: None,
            }),
        ],
{
    let button = InlineKeyboardButton {
        text,
        url: Some(url),
        callback_data: None,
        switch_inline_query: None,
        switch_inline_query_current_chat: None,
    };
    let markup = InlineKeyboardMarkup { inline_keyboard: vec![vec![button]] };
    proof {
        assert(markup.inline_keyboard@[0]@ =~= seq![button]);
    }
    EditMessageReplyMarkup {
        chat_id: message.chat_id(),
        message_id: Some(message.message_id),
        inline_message_id: None,
        reply_markup: Some(ReplyMarkup::InlineKeyboardMarkup(markup)),
    }
}

/// Checks the answer to an edit: success and code 400 (the platform often
/// refuses edits of channel posts it sent itself) complete the update;
/// every other error is returned.
pub fn check_response(resp: Result<MessageOrBool, Error>) -> (r: Result<Status, Error>)
    ensures
        match resp {
            Ok(_) => r == Ok::<Status, Error>(Status::Completed),
            Err(Error::Telegram(e)) => if e.error_code == Some(400i32) {
                r == Ok::<Status, Error>(Status::Completed)
            } else {
                r == Err::<Status, Error>(Error::Telegram(e))
            },
            Err(e) => r == Err::<Status, Error>(e),
        },
{
    match resp {
        Err(Error::Telegram(e)) => {
            if e.error_code == Some(400i32) {
                Ok(Status::Completed)
            } else {
                Err(Error::Telegram(e))
            }
        },
        Ok(_) => Ok(Status::Completed),
        Err(e) => Err(e),
    }
}

} // verus!
