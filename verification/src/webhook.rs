//! Routing of inbound webhook events: which callback events are recognized
//! and what each one asks the bot to do. Only the decision lives here; the
//! caller parses the delivery into a `CallbackEvent` and performs the chosen
//! action.

use vstd::prelude::*;

verus! {

/// What the engine reads from one inbound callback delivery.
#[derive(Debug)]
pub struct CallbackEvent {
    /// The event name, e.g. "message" or "conversation_started".
    pub event: String,
    /// The identifier of the user who started a conversation, if delivered.
    pub user_id: Option<String>,
    /// The identifier of the message's sender, if delivered.
    pub sender_id: Option<String>,
    /// The text of the message, if delivered.
    pub text: Option<String>,
}

/// The action an inbound event asks for; each recognized action carries the
/// recipient to answer.
#[derive(Debug)]
pub enum InboundAction {
    /// Nothing recognized: acknowledge and do nothing.
    Ignore,
    /// Greet a user whose conversation just started.
    Welcome(String),
    /// Answer with the current price lookup.
    SendBitcoinPrice(String),
    /// Answer with tomorrow's forecast (the on-demand path).
    SendTomorrowForecast(String),
}

/// The mathematical image of an `InboundAction`.
pub enum ActionModel {
    Ignore,
    Welcome(Seq<char>),
    SendBitcoinPrice(Seq<char>),
    SendTomorrowForecast(Seq<char>),
}

impl View for InboundAction {
    type V = ActionModel;

    open spec fn view(&self) -> ActionModel {
        match self {
            InboundAction::Ignore => ActionModel::Ignore,
            InboundAction::Welcome(id) => ActionModel::Welcome(id@),
            InboundAction::SendBitcoinPrice(id) => ActionModel::SendBitcoinPrice(id@),
            InboundAction::SendTomorrowForecast(id) => ActionModel::SendTomorrowForecast(id@),
        }
    }
}

/// The routing rule: a started conversation with a known user is welcomed; a
/// "message" event from a known sender is answered according to its command
/// text; everything else — other events, absent identities, unrecognized
/// commands — is acknowledged and ignored.
pub open spec fn spec_route(ev: CallbackEvent) -> ActionModel {
    if ev.event@ == "conversation_started"@ {
        match ev.user_id {
            Option::Some(u) => ActionModel::Welcome(u@),
            Option::None => ActionModel::Ignore,
        }
    } else if ev.event@ == "message"@ {
        match (ev.sender_id, ev.text) {
            (Option::Some(s), Option::Some(t)) => if t@ == "bitcoin"@ {
                ActionModel::SendBitcoinPrice(s@)
            } else if t@ == "forecast_kiev_tomorrow"@ {
                ActionModel::SendTomorrowForecast(s@)
            } else {
                ActionModel::Ignore
            },
            _ => ActionModel::Ignore,
        }
    } else {
        ActionModel::Ignore
    }
}

/// Whether a string equals a literal, by contents.
fn string_is(s: &String, lit: &str) -> (r: bool)
    ensures
        r == (s@ == lit@),
{
    *s == lit.to_owned()
}

/// Decides what one inbound callback event asks the bot to do.
pub fn route_callback(ev: &CallbackEvent) -> (a: InboundAction)
    ensures
        a@ == spec_route(*ev),
{
    if string_is(&ev.event, "conversation_started") {
        match &ev.user_id {
            Option::Some(u) => InboundAction::Welcome(u.clone()),
            Option::None => InboundAction::Ignore,
        }
    } else if string_is(&ev.event, "message") {
        match (&ev.sender_id, &ev.text) {
            (Option::Some(s), Option::Some(t)) => {
                if string_is(t, "bitcoin") {
                    InboundAction::SendBitcoinPrice(s.clone())
                } else if string_is(t, "forecast_kiev_tomorrow") {
                    InboundAction::SendTomorrowForecast(s.clone())
                } else {
                    InboundAction::Ignore
                }
            },
            _ => InboundAction::Ignore,
        }
    } else {
        InboundAction::Ignore
    }
}

} // verus!
