use viber_alerts::messages::{get_default_keyboard, EventTypes, Sender};

#[test]
fn default_keyboard_has_both_commands() {
    let kb = get_default_keyboard();
    assert_eq!(kb._type, "keyboard");
    assert!(kb.default_height);
    assert_eq!(kb.buttons.len(), 2);
    assert_eq!(kb.buttons[0].action_body, "bitcoin");
    assert_eq!(kb.buttons[0].action_type, "reply");
    assert_eq!(kb.buttons[0].text, "Bitcoin Price");
    assert_eq!(kb.buttons[0].text_size, "regular");
    assert_eq!(kb.buttons[1].action_body, "forecast_kiev_tomorrow");
    assert_eq!(kb.buttons[1].action_type, "reply");
    assert_eq!(kb.buttons[1].text, "Weather For Tomorrow");
    assert_eq!(kb.buttons[1].text_size, "regular");
}

#[test]
fn event_types_wire_names() {
    assert_eq!(EventTypes::Subscribed.value(), "subscribed");
    assert_eq!(EventTypes::Unsubscribed.value(), "unsubscribed");
    assert_eq!(EventTypes::ConversationStarted.value(), "conversation_started");
    assert_eq!(EventTypes::Delivered.value(), "delivered");
    assert_eq!(EventTypes::Failed.value(), "failed");
    assert_eq!(EventTypes::Message.value(), "message");
    assert_eq!(EventTypes::Seen.value(), "seen");
    assert_eq!(EventTypes::Unknown("webhook".to_owned()).value(), "webhook");
}

#[test]
fn sender_builder_sets_each_field() {
    let s = Sender::new("bot");
    assert_eq!(s.name, "bot");
    assert_eq!(s.avatar, "");
    assert!(s.id.is_none());
    assert!(s.country.is_none());
    assert!(s.language.is_none());
    assert!(s.api_version.is_none());

    let s = s
        .avatar("http://example.org/a.png")
        .id("bot-1")
        .language("uk")
        .country("UA")
        .api_version(7);
    assert_eq!(s.name, "bot");
    assert_eq!(s.avatar, "http://example.org/a.png");
    assert_eq!(s.id.as_deref(), Some("bot-1"));
    assert_eq!(s.language.as_deref(), Some("uk"));
    assert_eq!(s.country.as_deref(), Some("UA"));
    assert_eq!(s.api_version, Some(7));
}
