use descord::models::CreateMessageData;
use descord::rest::{audit_log_header, get_headers};
use descord::Event;

#[test]
fn event_names_resolve() {
    assert_eq!(Event::from_name("READY"), Ok(Event::Ready));
    assert_eq!(Event::from_name("MESSAGE_CREATE"), Ok(Event::MessageCreate));
    assert_eq!(Event::from_name("WEBHOOKS_UPDATE"), Ok(Event::WebhooksUpdate));
    assert_eq!("INTERACTION_CREATE".parse::<Event>(), Ok(Event::InteractionCreate));
    assert_eq!("READY".parse::<Event>(), Ok(Event::Ready));
    assert_eq!("MESSAGE_CREATE".parse::<Event>(), Ok(Event::MessageCreate));
    assert_eq!("GUILD_MEMBER_ADD".parse::<Event>(), Ok(Event::GuildMemberAdd));
}

#[test]
fn unknown_event_names_are_refused() {
    assert_eq!(Event::from_name("ready"), Err(()));
    assert_eq!(Event::from_name(""), Err(()));
    assert_eq!(Event::from_name("MESSAGE_CREATED"), Err(()));
    assert_eq!("MESSAGE_CREATE ".parse::<Event>(), Err(()));
    assert_eq!("ready".parse::<Event>(), Err(()));
    assert_eq!("".parse::<Event>(), Err(()));
}

#[test]
fn headers_carry_token() {
    let h = get_headers("SECRET-REDACTED");
    assert_eq!(h.len(), 2);
    assert_eq!(h[0], ("Content-Type".to_string(), "application/json".to_string()));
    assert_eq!(h[1], ("Authorization".to_string(), "Bot SECRET-REDACTED".to_string()));
    assert_eq!(
        audit_log_header("spam"),
        ("X-Audit-Log-Reason".to_string(), "spam".to_string())
    );
}

#[test]
fn message_from_text() {
    let m = CreateMessageData::from("hi".to_string());
    assert_eq!(m.content, "hi");
    assert!(!m.tts);
    assert_eq!(CreateMessageData::text("yo").content, "yo");
}
