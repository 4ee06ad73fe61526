use vstd::prelude::*;
use vstd::string::StrSliceExecFns;
use vstd::string::StringExecFns;

use crate::text::{copy_opt, decimal, decimal_spec, find_char, first_index_of, lemma_first_index_of};

verus! {

/// An error that the chat platform returned for a request.
#[derive(Clone, Debug, Default, PartialEq)]
pub struct TelegramError {
    /// A HTTP-style error code.
    pub error_code: Option<i32>,
    /// A human readable error description.
    pub description: Option<String>,
    /// Additional information about errors in the request.
    pub parameters: Option<ResponseParameters>,
}

/// Additional information that comes with some errors.
#[derive(Clone, Copy, Debug, Default, PartialEq, Eq)]
pub struct ResponseParameters {
    pub migrate_to_chat_id: Option<i64>,
    /// Seconds to wait before the request may be repeated.
    pub retry_after: Option<i32>,
}

/// The envelope of every answer of the chat platform.
#[derive(Clone, Debug)]
pub struct Response<T> {
    /// If the request was successful. If true, the result is available.
    /// If false, error contains information about what happened.
    pub ok: bool,
    pub error: TelegramError,
    /// The response data.
    pub result: Option<T>,
}

impl<T> Response<T> {
    /// Turns the envelope into a result: the data when the request
    /// succeeded and carried data, the error otherwise.
    pub fn into_result(self) -> (r: Result<T, TelegramError>)
        ensures
            (self.ok && self.result is Some) ==> r == Ok::<T, TelegramError>(self.result->0),
            !(self.ok && self.result is Some) ==> r == Err::<T, TelegramError>(self.error),
    {
        match self.result {
            Some(result) if self.ok => Ok(result),
            _ => Err(self.error),
        }
    }
}

#[derive(Debug, Default)]
pub struct Update {
    pub update_id: i32,
    pub message: Option<Message>,
    pub edited_message: Option<Message>,
    pub channel_post: Option<Message>,
    pub edited_channel_post: Option<Message>,
    pub inline_query: Option<InlineQuery>,
    pub chosen_inline_result: Option<ChosenInlineResult>,
    pub callback_query: Option<CallbackQuery>,
}

#[derive(Clone, Debug, Default, PartialEq)]
pub struct User {
    pub id: i32,
    pub is_bot: bool,
    pub first_name: String,
    pub last_name: Option<String>,
    pub username: Option<String>,
    pub language_code: Option<String>,
}

/// The kind of a chat.
#[derive(Clone, Copy, Debug, Default, PartialEq, Eq, Structural)]
pub enum ChatType {
    #[default]
    Private,
    Group,
    Supergroup,
    Channel,
}

impl ChatType {
    /// Groups and supergroups are groups.
    pub fn is_group(&self) -> (r: bool)
        ensures
            r == (*self == ChatType::Group || *self == ChatType::Supergroup),
    {
        *self == Self::Group || *self == Self::Supergroup
    }
}

#[derive(Clone, Debug, Default, PartialEq)]
pub struct Chat {
    pub id: i64,
    pub chat_type: ChatType,
}

#[derive(Clone, Debug, PartialEq)]
pub struct MessageEntity {
    pub entity_type: MessageEntityType,
    pub offset: i32,
    pub length: i32,
    pub url: Option<String>,
    pub user: Option<User>,
}

#[derive(Clone, Copy, Debug, PartialEq, Eq, Structural)]
pub enum MessageEntityType {
    Mention,
    Hashtag,
    Cashtag,
    BotCommand,
    URL,
    Email,
    PhoneNumber,
    Bold,
    Italic,
    Code,
    Pre,
    TextLink,
    TextMention,
}

#[derive(Debug, Default)]
pub struct Message {
    pub message_id: i32,
    pub from: Option<User>,
    pub date: i64,
    pub chat: Chat,
    pub forward_from: Option<User>,
    pub forward_from_chat: Option<Chat>,
    pub forward_from_message_id: Option<i32>,
    pub forward_signature: Option<String>,
    pub forward_sender_name: Option<String>,
    pub forward_date: Option<i64>,
    pub reply_to_message: Option<Box<Message>>,
    pub edit_date: Option<i64>,
    pub media_group_id: Option<String>,
    pub author_signature: Option<String>,
    pub text: Option<String>,
    pub entities: Option<Vec<MessageEntity>>,
    pub photo: Option<Vec<PhotoSize>>,
    pub caption: Option<String>,
    pub new_chat_members: Option<Vec<User>>,
    pub left_chat_member: Option<User>,
    pub new_chat_title: Option<String>,
    pub migrate_to_chat_id: Option<i64>,
    pub migrate_from_chat_id: Option<i64>,
    pub reply_markup: Option<InlineKeyboardMarkup>,
}

impl Message {
    /// The identifier of the chat the message was posted in.
    pub fn chat_id(&self) -> (r: ChatID)
        ensures
            r == ChatID::Identifier(self.chat.id),
    {
        ChatID::Identifier(self.chat.id)
    }
}

#[derive(Clone, Debug, PartialEq)]
pub struct PhotoSize {
    pub file_id: String,
    pub file_unique_id: String,
    pub width: i32,
    pub height: i32,
    pub file_size: Option<i32>,
}

#[derive(Clone, Debug)]
pub struct CallbackQuery {
    pub id: String,
    pub data: Option<String>,
}

#[derive(Clone, Debug)]
pub struct InlineQuery {
    pub id: String,
    pub from: User,
    pub query: String,
    pub offset: String,
}

#[derive(Clone, Debug)]
pub struct ChosenInlineResult {
    pub result_id: String,
    pub from: User,
    pub inline_message_id: Option<String>,
    pub query: String,
}

/// Where a file can be downloaded from.
#[derive(Clone, Debug)]
pub struct File {
    /// The ID for this file, specific to this bot.
    pub file_id: String,
    /// The size of the file, if known.
    pub file_size: Option<usize>,
    /// A path which is required to download the file.
    pub file_path: Option<String>,
}

#[derive(Clone, Debug, Default, PartialEq)]
pub struct InlineKeyboardButton {
    pub text: String,
    pub url: Option<String>,
    pub callback_data: Option<String>,
    pub switch_inline_query: Option<String>,
    pub switch_inline_query_current_chat: Option<String>,
}

#[derive(Clone, Debug, Default, PartialEq)]
pub struct InlineKeyboardMarkup {
    pub inline_keyboard: Vec<Vec<InlineKeyboardButton>>,
}

#[derive(Clone, Copy, Debug, Default, PartialEq, Eq, Structural)]
pub enum ChatMemberStatus {
    Creator,
    Administrator,
    #[default]
    Member,
    Restricted,
    Left,
    Kicked,
}

impl ChatMemberStatus {
    /// Creators and administrators administer a chat.
    pub fn is_admin(&self) -> (r: bool)
        ensures
            r == (*self == ChatMemberStatus::Creator || *self == ChatMemberStatus::Administrator),
    {
        *self == Self::Creator || *self == Self::Administrator
    }
}

#[derive(Clone, Debug, Default)]
pub struct ChatMember {
    pub user: User,
    pub status: ChatMemberStatus,
    pub custom_title: Option<String>,
    pub until_date: Option<i32>,
    pub can_be_edited: Option<bool>,
    pub can_post_messages: Option<bool>,
    pub can_edit_messages: Option<bool>,
    pub can_delete_messages: Option<bool>,
    pub can_restrict_members: Option<bool>,
    pub can_promote_members: Option<bool>,
    pub can_change_info: Option<bool>,
    pub can_invite_users: Option<bool>,
    pub can_pin_messages: Option<bool>,
    pub is_member: Option<bool>,
    pub can_send_messages: Option<bool>,
    pub can_send_media_messages: Option<bool>,
    pub can_send_polls: Option<bool>,
    pub can_send_other_messages: Option<bool>,
    pub can_add_web_page_previews: Option<bool>,
}

/// A chat, by number or by the username of a channel.
#[derive(Clone, Debug, PartialEq)]
pub enum ChatID {
    /// A chat's numeric ID.
    Identifier(i64),
    /// A username for a channel.
    Username(String),
}

} // verus!

verus! {

impl User {
    /// A field-by-field copy.
    pub fn duplicate(&self) -> (r: User)
        ensures
            r == *self,
    {
        User {
            id: self.id,
            is_bot: self.is_bot,
            first_name: self.first_name.clone(),
            last_name: copy_opt(&self.last_name),
            username: copy_opt(&self.username),
            language_code: copy_opt(&self.language_code),
        }
    }
}

impl PhotoSize {
    /// A field-by-field copy.
    pub fn duplicate(&self) -> (r: PhotoSize)
        ensures
            r == *self,
    {
        PhotoSize {
            file_id: self.file_id.clone(),
            file_unique_id: self.file_unique_id.clone(),
            width: self.width,
            height: self.height,
            file_size: self.file_size,
        }
    }
}

impl MessageEntity {
    /// A field-by-field copy.
    pub fn duplicate(&self) -> (r: MessageEntity)
        ensures
            r == *self,
    {
        MessageEntity {
            entity_type: self.entity_type,
            offset: self.offset,
            length: self.length,
            url: copy_opt(&self.url),
            user: match &self.user {
                Some(u) => Some(u.duplicate()),
                None => None,
            },
        }
    }
}

/// A command given to the bot: the text of a bot-command entity at the
/// start of a message.
#[derive(Clone, Debug)]
pub struct Command {
    pub name: String,
    pub entity: MessageEntity,
    pub username: Option<String>,
}

/// The entity marks a bot command at the start of the text.
pub open spec fn is_leading_command(e: MessageEntity) -> bool {
    e.offset == 0 && e.entity_type == MessageEntityType::BotCommand
}

/// The text that an entity of the given length covers from the start; a
/// negative length covers all of it.
pub open spec fn leading_text(text: Seq<char>, length: i32) -> Seq<char> {
    if 0 <= length < text.len() {
        text.take(length as int)
    } else {
        text
    }
}

/// The command name: the text up to the first `@`.
pub open spec fn command_name(t: Seq<char>) -> Seq<char> {
    t.take(first_index_of(t, '@'))
}

/// The bot username: the text between the first and the second `@`, if
/// there is an `@`.
pub open spec fn command_username(t: Seq<char>) -> Option<Seq<char>> {
    let i = first_index_of(t, '@');
    if i < t.len() {
        let rest = t.skip(i + 1);
        Some(rest.take(first_index_of(rest, '@')))
    } else {
        None
    }
}

/// The position of the first leading command entity.
pub open spec fn leading_command_at(es: Seq<MessageEntity>, i: int) -> bool {
    &&& 0 <= i < es.len()
    &&& is_leading_command(es[i])
    &&& forall|j: int| 0 <= j < i ==> !is_leading_command(#[trigger] es[j])
}

/// The command read from the entity at position `i` of a text's entities.
pub open spec fn command_at(c: Command, es: Seq<MessageEntity>, text: Seq<char>, i: int) -> bool {
    let t = leading_text(text, es[i].length);
    &&& leading_command_at(es, i)
    &&& c.entity == es[i]
    &&& c.name@ == command_name(t)
    &&& opt_view(c.username) == command_username(t)
}

pub open spec fn opt_view(s: Option<String>) -> Option<Seq<char>> {
    match s {
        Some(v) => Some(v@),
        None => None,
    }
}

impl Message {
    /// Extracts the command from a given message.
    ///
    /// Returns None if there is not a MessageEntity of type BotCommand
    /// starting at offset 0. Optionally returns the username of the mentioned
    /// bot, if data exists.
    pub fn get_command(&self) -> (r: Option<Command>)
        ensures
            r is Some <==> (self.text is Some && self.entities is Some && exists|i: int|
                0 <= i < (self.entities->0)@.len() && is_leading_command(
                    #[trigger] (self.entities->0)@[i],
                )),
            r matches Some(c) ==> exists|i: int|
                #[trigger] command_at(c, (self.entities->0)@, (self.text->0)@, i),
    {
        if self.entities.is_none() || self.text.is_none() {
            return None;
        }
        let entities = self.entities.as_ref().unwrap();
        let text = self.text.as_ref().unwrap();
        let mut i: usize = 0;
        while i < entities.len()
            invariant
                self.entities == Some(*entities),
                self.text == Some(*text),
                i <= entities@.len(),
                forall|j: int| 0 <= j < i ==> !is_leading_command(#[trigger] entities@[j]),
            decreases entities@.len() - i,
        {
            let e = &entities[i];
            if e.offset == 0 && e.entity_type == MessageEntityType::BotCommand {
                let n = text.unicode_len();
                let end = if e.length >= 0 && (e.length as usize) < n {
                    e.length as usize
                } else {
                    n
                };
                let t = text.as_str().substring_char(0, end);
                let ghost tv = leading_text(text@, e.length);
                assert(t@ =~= tv);
                let at = find_char(t, '@');
                proof {
                    lemma_first_index_of(t@, '@');
                }
                let name = t.substring_char(0, at).to_owned();
                let username = if at < end {
                    let rest = t.substring_char(at + 1, end);
                    assert(rest@ =~= tv.skip(at + 1));
                    let at2 = find_char(rest, '@');
                    proof {
                        lemma_first_index_of(rest@, '@');
                    }
                    Some(rest.substring_char(0, at2).to_owned())
                } else {
                    None
                };
                assert(name@ =~= command_name(tv));
                assert(opt_view(username) =~= command_username(tv));
                let c = Command { name, entity: e.duplicate(), username };
                assert((self.entities->0)@ == entities@);
                assert((self.text->0)@ == text@);
                assert(is_leading_command((self.entities->0)@[i as int]));
                assert(command_at(c, (self.entities->0)@, (self.text->0)@, i as int));
                return Some(c);
            }
            i = i + 1;
        }
        None
    }
}

/// ForceReply asks clients to answer the bot's message.
#[derive(Clone, Copy, Debug, PartialEq, Eq, Structural)]
pub struct ForceReply {
    /// This must be set to `true` to operate correctly.
    pub force_reply: bool,
    /// If only the user you are mentioning or replying to should be defaulted
    /// to replying to your message, or if it should default to replying for all
    /// members of the chat.
    pub selective: bool,
}

impl ForceReply {
    /// Create a [ForceReply] with selectivity.
    pub fn selective() -> (r: ForceReply)
        ensures
            r.force_reply && r.selective,
    {
        ForceReply { force_reply: true, selective: true }
    }
}

impl Default for ForceReply {
    /// Create a [ForceReply] without selectivity.
    fn default() -> (r: ForceReply)
        ensures
            r.force_reply && !r.selective,
    {
        ForceReply { force_reply: true, selective: false }
    }
}

/// Additional data sent with a message.
#[derive(Clone, Debug, PartialEq)]
pub enum ReplyMarkup {
    InlineKeyboardMarkup(InlineKeyboardMarkup),
    ForceReply(ForceReply),
}

/// A request that returns the bot's own user.
#[derive(Clone, Copy, Debug)]
pub struct GetMe;

/// A request for pending updates.
#[derive(Clone, Debug, Default)]
pub struct GetUpdates {
    pub offset: Option<i32>,
    pub limit: Option<i32>,
    pub timeout: Option<i32>,
    pub allowed_updates: Option<Vec<String>>,
}

/// A request that sends a text message.
#[derive(Clone, Debug, PartialEq)]
pub struct SendMessage {
    /// The ID of the chat to send a message to.
    pub chat_id: ChatID,
    /// The text of the message.
    pub text: String,
    /// The ID of the message this message is in reply to.
    pub reply_to_message_id: Option<i32>,
    /// The reply markup, if desired.
    pub reply_markup: Option<ReplyMarkup>,
    /// If the platform should not generate a web page preview.
    pub disable_web_page_preview: Option<bool>,
    /// If the message should arrive without a notification.
    pub disable_notification: Option<bool>,
}

/// A request that replaces the caption of a message.
#[derive(Clone, Debug, PartialEq)]
pub struct EditMessageCaption {
    pub chat_id: ChatID,
    pub message_id: Option<i32>,
    pub inline_message_id: Option<String>,
    pub caption: Option<String>,
    pub reply_markup: Option<ReplyMarkup>,
}

/// A request that replaces the reply markup of a message.
#[derive(Clone, Debug, PartialEq)]
pub struct EditMessageReplyMarkup {
    pub chat_id: ChatID,
    pub message_id: Option<i32>,
    pub inline_message_id: Option<String>,
    pub reply_markup: Option<ReplyMarkup>,
}

/// A file for a request.
#[derive(Clone, Debug, Default, PartialEq)]
pub enum FileType {
    /// A URL to pass to the platform.
    URL(String),
    /// An ID of a file already on the platform's servers.
    FileID(String),
    /// A reference to a file attached to the same request.
    Attach(String),
    /// A file name and the bytes to upload.
    Bytes(String, Vec<u8>),
    /// A file should have been specified but has not.
    #[default]
    Missing,
}

impl FileType {
    /// Returns if this file is a type that gets uploaded to the platform.
    /// Most types are simply passed through as strings.
    pub fn needs_upload(&self) -> (r: bool)
        ensures
            r == (*self is Bytes),
    {
        match self {
            FileType::Bytes(_, _) => true,
            _ => false,
        }
    }
}

/// A request that sends a photo.
#[derive(Clone, Debug, Default)]
pub struct SendPhoto {
    pub chat_id: ChatID,
    pub photo: FileType,
    pub caption: Option<String>,
    pub reply_to_message_id: Option<i32>,
    pub reply_markup: Option<ReplyMarkup>,
}

/// A request for the download path of a file.
#[derive(Clone, Debug)]
pub struct GetFile {
    /// The ID of the file to fetch.
    pub file_id: String,
}

/// A request that shows the bot as busy in a chat.
#[derive(Clone, Debug)]
pub struct SendChatAction {
    pub chat_id: ChatID,
    pub action: ChatAction,
}

/// What the bot shows itself doing.
#[derive(Clone, Copy, Debug, PartialEq, Eq, Structural)]
pub enum ChatAction {
    Typing,
    UploadPhoto,
}

#[derive(Clone, Debug, PartialEq)]
pub struct InputMediaPhoto {
    pub media_type: String,
    pub media: FileType,
    pub caption: Option<String>,
}

#[derive(Clone, Debug, PartialEq)]
pub struct InputMediaVideo {
    pub media_type: String,
    pub media: FileType,
    pub caption: Option<String>,
}

/// A photo or a video of a media group.
#[derive(Clone, Debug, PartialEq)]
pub enum InputMedia {
    Photo(InputMediaPhoto),
    Video(InputMediaVideo),
}

impl InputMedia {
    /// Replaces the media within an InputMedia without caring about the type.
    pub fn update_media(&self, media: FileType) -> (r: InputMedia)
        ensures
            match *self {
                InputMedia::Photo(p) => r == InputMedia::Photo(
                    (InputMediaPhoto { media, ..p }),
                ),
                InputMedia::Video(v) => r == InputMedia::Video(
                    (InputMediaVideo { media, ..v }),
                ),
            },
    {
        match self {
            InputMedia::Photo(photo) => InputMedia::Photo(
                InputMediaPhoto {
                    media_type: photo.media_type.clone(),
                    media,
                    caption: copy_opt(&photo.caption),
                },
            ),
            InputMedia::Video(video) => InputMedia::Video(
                InputMediaVideo {
                    media_type: video.media_type.clone(),
                    media,
                    caption: copy_opt(&video.caption),
                },
            ),
        }
    }

    /// Get the file out of an InputMedia value.
    pub fn get_file(&self) -> (r: &FileType)
        ensures
            *r == match *self {
                InputMedia::Photo(p) => p.media,
                InputMedia::Video(v) => v.media,
            },
    {
        match self {
            InputMedia::Photo(photo) => &photo.media,
            InputMedia::Video(video) => &video.media,
        }
    }
}

/// A request that sends several photos or videos as one album.
#[derive(Clone, Debug, Default)]
pub struct SendMediaGroup {
    pub chat_id: ChatID,
    pub media: Vec<InputMedia>,
    pub disable_notification: Option<bool>,
    pub reply_to_message_id: Option<i32>,
}

/// A request that answers an inline query.
#[derive(Clone, Debug, Default)]
pub struct AnswerInlineQuery {
    pub inline_query_id: String,
    pub results: Vec<InlineQueryResult>,
    pub cache_time: Option<i32>,
    pub is_personal: Option<bool>,
    pub next_offset: Option<String>,
    pub switch_pm_text: Option<String>,
    pub switch_pm_parameter: Option<String>,
}

/// One result of an answer to an inline query.
#[derive(Clone, Debug, PartialEq)]
pub struct InlineQueryResult {
    pub result_type: String,
    pub id: String,
    pub reply_markup: Option<InlineKeyboardMarkup>,
    pub content: InlineQueryType,
}

#[derive(Clone, Debug, PartialEq)]
pub enum InlineQueryType {
    Article(InlineQueryResultArticle),
    Photo(InlineQueryResultPhoto),
    GIF(InlineQueryResultGIF),
}

#[derive(Clone, Debug, PartialEq)]
pub struct InlineQueryResultArticle {
    pub title: String,
    pub input_message_content: InputMessageType,
    pub description: Option<String>,
}

#[derive(Clone, Debug, PartialEq)]
pub struct InlineQueryResultPhoto {
    pub photo_url: String,
    pub thumb_url: String,
    pub caption: Option<String>,
}

#[derive(Clone, Debug, PartialEq)]
pub struct InlineQueryResultGIF {
    pub gif_url: String,
    pub thumb_url: String,
    pub caption: Option<String>,
}

impl InlineQueryResult {
    /// A result that sends the given text.
    pub fn article(id: String, title: String, text: String) -> (r: InlineQueryResult)
        ensures
            r.result_type@ == "article"@,
            r.id == id,
            r.reply_markup is None,
            r.content == InlineQueryType::Article(
                (InlineQueryResultArticle {
                    title,
                    description: None,
                    input_message_content: InputMessageType::Text(
                        (InputMessageText { message_text: text, parse_mode: None }),
                    ),
                }),
            ),
    {
        InlineQueryResult {
            result_type: String::from_str("article"),
            id,
            reply_markup: None,
            content: InlineQueryType::Article(
                InlineQueryResultArticle {
                    title,
                    description: None,
                    input_message_content: InputMessageType::Text(
                        InputMessageText { message_text: text, parse_mode: None },
                    ),
                },
            ),
        }
    }

    /// A result that sends a photo.
    pub fn photo(id: String, photo_url: String, thumb_url: String) -> (r: InlineQueryResult)
        ensures
            r.result_type@ == "photo"@,
            r.id == id,
            r.reply_markup is None,
            r.content == InlineQueryType::Photo(
                (InlineQueryResultPhoto { photo_url, thumb_url, caption: None }),
            ),
    {
        InlineQueryResult {
            result_type: String::from_str("photo"),
            id,
            reply_markup: None,
            content: InlineQueryType::Photo(
                InlineQueryResultPhoto { photo_url, thumb_url, caption: None },
            ),
        }
    }

    /// A result that sends an animation.
    pub fn gif(id: String, gif_url: String, thumb_url: String) -> (r: InlineQueryResult)
        ensures
            r.result_type@ == "gif"@,
            r.id == id,
            r.reply_markup is None,
            r.content == InlineQueryType::GIF(
                (InlineQueryResultGIF { gif_url, thumb_url, caption: None }),
            ),
    {
        InlineQueryResult {
            result_type: String::from_str("gif"),
            id,
            reply_markup: None,
            content: InlineQueryType::GIF(InlineQueryResultGIF { gif_url, thumb_url, caption: None }),
        }
    }
}

#[derive(Clone, Debug, PartialEq)]
pub enum InputMessageType {
    Text(InputMessageText),
}

#[derive(Clone, Debug, PartialEq)]
pub struct InputMessageText {
    pub message_text: String,
    pub parse_mode: Option<String>,
}

/// A request that sets the address updates are delivered to.
#[derive(Clone, Debug)]
pub struct SetWebhook {
    pub url: String,
}

/// A request that stops the delivery of updates to an address.
#[derive(Clone, Copy, Debug)]
pub struct DeleteWebhook;

impl Default for ChatID {
    fn default() -> (r: ChatID)
        ensures
            r == ChatID::Identifier(0),
    {
        ChatID::Identifier(0)
    }
}

} // verus!

verus! {

/// What went wrong with a request to the chat platform.
#[derive(Clone, Debug, PartialEq)]
pub enum Error {
    /// The platform answered with an error.
    Telegram(TelegramError),
    /// The answer could not be read; the text says why.
    JSON(String),
    /// The request could not be made; the text says why.
    Request(String),
}

/// What a successful edit returns: the edited message, or `true` for
/// messages sent through inline mode.
#[derive(Debug)]
pub enum MessageOrBool {
    Message(Message),
    Bool(bool),
}

} // verus!

verus! {

impl From<i64> for ChatID {
    fn from(item: i64) -> ChatID {
        ChatID::Identifier(item)
    }
}

impl vstd::std_specs::convert::FromSpecImpl<i64> for ChatID {
    open spec fn obeys_from_spec() -> bool {
        true
    }

    open spec fn from_spec(v: i64) -> ChatID {
        ChatID::Identifier(v)
    }
}

impl From<String> for ChatID {
    fn from(item: String) -> ChatID {
        ChatID::Username(item)
    }
}

impl vstd::std_specs::convert::FromSpecImpl<String> for ChatID {
    open spec fn obeys_from_spec() -> bool {
        true
    }

    open spec fn from_spec(v: String) -> ChatID {
        ChatID::Username(v)
    }
}

impl Default for InputMediaPhoto {
    fn default() -> (r: InputMediaPhoto)
        ensures
            r.media_type@ == "photo"@,
            r.media == FileType::Missing,
            r.caption is None,
    {
        InputMediaPhoto { media_type: String::from_str("photo"), media: FileType::Missing, caption: None }
    }
}

/// The human-readable form of a platform error.
pub open spec fn error_text_spec(e: TelegramError) -> Seq<char> {
    let code = match e.error_code {
        Some(c) => c as int,
        None => -1,
    };
    let description = match e.description {
        Some(d) => d@,
        None => "no description"@,
    };
    "Telegram Error "@ + decimal_spec(code) + ": "@ + description
}

impl TelegramError {
    /// Describes the error: its code (-1 when there is none) and its
    /// description.
    pub fn to_text(&self) -> (r: String)
        ensures
            r@ == error_text_spec(*self),
    {
        let code: i64 = match self.error_code {
            Some(c) => c as i64,
            None => -1,
        };
        let mut r = String::from_str("Telegram Error ");
        let digits = decimal(code);
        r.append(digits.as_str());
        r.append(": ");
        match &self.description {
            Some(d) => r.append(d.as_str()),
            None => r.append("no description"),
        }
        r
    }
}

} // verus!
