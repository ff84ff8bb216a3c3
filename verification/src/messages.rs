//! The messaging platform's data shapes as the engine reads and builds them:
//! registry members, message payloads, callback events and the default
//! quick-reply keyboard.

use vstd::prelude::*;

verus! {

/// One registry member: opaque recipient identifier, display name, role and
/// optional avatar reference.
#[derive(Debug)]
pub struct Member {
    pub id: String,
    pub name: String,
    pub avatar: Option<String>,
    pub role: String,
}

/// The sender identity attached to an outbound message.
#[derive(Debug)]
pub struct Sender {
    pub id: Option<String>,
    pub name: String,
    pub avatar: String,
    pub country: Option<String>,
    pub language: Option<String>,
    pub api_version: Option<i64>,
}

impl Sender {
    /// A sender with the given display name and every optional field empty.
    pub fn new(from: &str) -> (s: Sender)
        ensures
            s.id is None,
            s.name@ == from@,
            s.avatar@ == Seq::<char>::empty(),
            s.country is None,
            s.language is None,
            s.api_version is None,
    {
        Sender {
            id: Option::None,
            api_version: Option::None,
            country: Option::None,
            language: Option::None,
            name: from.to_owned(),
            avatar: String::new(),
        }
    }

    /// Sets the avatar reference and hands the sender back.
    pub fn avatar(self, url: &str) -> (s: Sender)
        ensures
            s.avatar@ == url@,
            s.id == self.id,
            s.name == self.name,
            s.country == self.country,
            s.language == self.language,
            s.api_version == self.api_version,
    {
        Sender { avatar: url.to_owned(), ..self }
    }

    /// Sets the identifier and hands the sender back.
    pub fn id(self, id: &str) -> (s: Sender)
        ensures
            s.id matches Some(i) && i@ == id@,
            s.avatar == self.avatar,
            s.name == self.name,
            s.country == self.country,
            s.language == self.language,
            s.api_version == self.api_version,
    {
        Sender { id: Option::Some(id.to_owned()), ..self }
    }

    /// Sets the language and hands the sender back.
    pub fn language(self, language: &str) -> (s: Sender)
        ensures
            s.language matches Some(l) && l@ == language@,
            s.id == self.id,
            s.name == self.name,
            s.avatar == self.avatar,
            s.country == self.country,
            s.api_version == self.api_version,
    {
        Sender { language: Option::Some(language.to_owned()), ..self }
    }

    /// Sets the country and hands the sender back.
    pub fn country(self, country: &str) -> (s: Sender)
        ensures
            s.country matches Some(c) && c@ == country@,
            s.id == self.id,
            s.name == self.name,
            s.avatar == self.avatar,
            s.language == self.language,
            s.api_version == self.api_version,
    {
        Sender { country: Option::Some(country.to_owned()), ..self }
    }

    /// Sets the API version and hands the sender back.
    pub fn api_version(self, api_version: i64) -> (s: Sender)
        ensures
            s.api_version == Some(api_version),
            s.id == self.id,
            s.name == self.name,
            s.avatar == self.avatar,
            s.country == self.country,
            s.language == self.language,
    {
        Sender { api_version: Option::Some(api_version), ..self }
    }
}

/// The inbound event kinds the platform delivers.
#[derive(Debug)]
pub enum EventTypes {
    Subscribed,
    Unsubscribed,
    ConversationStarted,
    Delivered,
    Failed,
    Message,
    Seen,
    Unknown(String),
}

/// The wire name of each event kind.
pub open spec fn spec_event_value(e: EventTypes) -> Seq<char> {
    match e {
        EventTypes::Subscribed => "subscribed"@,
        EventTypes::Unsubscribed => "unsubscribed"@,
        EventTypes::ConversationStarted => "conversation_started"@,
        EventTypes::Delivered => "delivered"@,
        EventTypes::Failed => "failed"@,
        EventTypes::Message => "message"@,
        EventTypes::Seen => "seen"@,
        EventTypes::Unknown(s) => s@,
    }
}

impl EventTypes {
    /// The event's wire name.
    pub fn value(&self) -> (r: &str)
        ensures
            r@ == spec_event_value(*self),
    {
        match self {
            EventTypes::Subscribed => "subscribed",
            EventTypes::Unsubscribed => "unsubscribed",
            EventTypes::ConversationStarted => "conversation_started",
            EventTypes::Delivered => "delivered",
            EventTypes::Failed => "failed",
            EventTypes::Message => "message",
            EventTypes::Seen => "seen",
            EventTypes::Unknown(s) => s.as_str(),
        }
    }
}

/// One button of a quick-reply keyboard.
#[derive(Debug)]
pub struct Button {
    pub action_type: String,
    pub action_body: String,
    pub text: String,
    pub text_size: String,
}

/// A quick-reply keyboard attached to an outbound message.
#[derive(Debug)]
pub struct Keyboard {
    pub _type: String,
    pub default_height: bool,
    pub buttons: Vec<Button>,
}

/// An outbound text message.
#[derive(Debug)]
pub struct TextMessage {
    pub receiver: String,
    pub min_api_version: i64,
    pub sender: Sender,
    pub tracking_data: String,
    pub _type: String,
    pub keyboard: Option<Keyboard>,
    pub text: String,
}

/// An outbound file message.
#[derive(Debug)]
pub struct FileMessage {
    pub receiver: String,
    pub min_api_version: i64,
    pub sender: Sender,
    pub tracking_data: String,
    pub _type: String,
    pub media: String,
    pub keyboard: Option<Keyboard>,
    pub size: usize,
    pub file_name: String,
}

/// An outbound picture message.
#[derive(Debug)]
pub struct PictureMessage {
    pub receiver: String,
    pub min_api_version: i64,
    pub sender: Sender,
    pub tracking_data: String,
    pub _type: String,
    pub keyboard: Option<Keyboard>,
    pub media: String,
    pub text: String,
    pub thumbnail: String,
}

/// An outbound video message.
#[derive(Debug)]
pub struct VideoMessage {
    pub receiver: String,
    pub min_api_version: i64,
    pub sender: Sender,
    pub tracking_data: String,
    pub _type: String,
    pub keyboard: Option<Keyboard>,
    pub media: String,
    pub size: usize,
    pub duration: u16,
    pub thumbnail: String,
}

/// A platform user as delivered in callback events.
#[derive(Debug)]
pub struct User {
    pub id: String,
    pub name: String,
    pub avatar: String,
    pub country: String,
    pub language: String,
    pub api_version: i64,
}

/// The default quick-reply keyboard: one button asking for the price lookup
/// and one asking for tomorrow's forecast.
pub fn get_default_keyboard() -> (k: Keyboard)
    ensures
        k._type@ == "keyboard"@,
        k.default_height == true,
        k.buttons@.len() == 2,
        k.buttons@[0].action_body@ == "bitcoin"@,
        k.buttons@[0].action_type@ == "reply"@,
        k.buttons@[0].text@ == "Bitcoin Price"@,
        k.buttons@[0].text_size@ == "regular"@,
        k.buttons@[1].action_body@ == "forecast_kiev_tomorrow"@,
        k.buttons@[1].action_type@ == "reply"@,
        k.buttons@[1].text@ == "Weather For Tomorrow"@,
        k.buttons@[1].text_size@ == "regular"@,
{
    let mut buttons: Vec<Button> = Vec::new();
    buttons.push(
        Button {
            action_body: "bitcoin".to_owned(),
            action_type: "reply".to_owned(),
            text: "Bitcoin Price".to_owned(),
            text_size: "regular".to_owned(),
        },
    );
    buttons.push(
        Button {
            action_body: "forecast_kiev_tomorrow".to_owned(),
            action_type: "reply".to_owned(),
            text: "Weather For Tomorrow".to_owned(),
            text_size: "regular".to_owned(),
        },
    );
    Keyboard { _type: "keyboard".to_owned(), default_height: true, buttons }
}

} // verus!
