use descord::commands::{coerce, ParamType, Value};
use descord::reconcile::{SlashCommand, SlashParam};
use descord::text::{parse_bool, parse_int, split_words};
use descord::{Client, Command, Event, EventHandler, RegistrationError, Route};

fn greet() -> Command {
    Command {
        name: "greet".to_string(),
        args: vec![ParamType::String, ParamType::Int, ParamType::Bool],
        handler: 1,
        custom_prefix: false,
    }
}

#[test]
fn text_command_coerces_arguments() {
    let mut c = Client::new("tok", 513, "!");
    c.register_commands(vec![greet()]).unwrap();
    let inv = c.route_text("!greet Alice 5 true").unwrap();
    assert_eq!(inv.handler, 1);
    assert_eq!(
        inv.args,
        vec![Value::String("Alice".to_string()), Value::Int(5), Value::Bool(true)]
    );
}

#[test]
fn text_command_with_bad_int_invokes_nothing() {
    let mut c = Client::new("tok", 513, "!");
    c.register_commands(vec![greet()]).unwrap();
    assert_eq!(c.route_text("!greet Alice notanint true"), None);
}

#[test]
fn text_command_with_wrong_arity_invokes_nothing() {
    let mut c = Client::new("tok", 513, "!");
    c.register_commands(vec![greet()]).unwrap();
    assert_eq!(c.route_text("!greet Alice 5"), None);
    assert_eq!(c.route_text("!greet Alice 5 true extra"), None);
}

#[test]
fn text_routing_needs_exact_prefixed_name() {
    let mut c = Client::new("tok", 513, "!");
    c.register_commands(vec![greet()]).unwrap();
    assert_eq!(c.route_text("greet Alice 5 true"), None);
    assert_eq!(c.route_text("!greeting Alice 5 true"), None);
    assert_eq!(c.route_text(""), None);
    assert_eq!(c.route_text("   "), None);
}

#[test]
fn custom_prefix_overrides_default() {
    let mut c = Client::new("tok", 513, "!");
    let cmd = Command { name: "$ping".to_string(), args: vec![], handler: 4, custom_prefix: true };
    c.register_commands(vec![cmd]).unwrap();
    assert_eq!(c.route_text("!ping"), None);
    let inv = c.route_text("  $ping  ").unwrap();
    assert_eq!(inv.handler, 4);
    assert!(inv.args.is_empty());
}

#[test]
fn bool_arguments_ignore_case() {
    let mut c = Client::new("tok", 513, "!");
    c.register_commands(vec![greet()]).unwrap();
    let inv = c.route_text("!greet Bob -12 FaLsE").unwrap();
    assert_eq!(
        inv.args,
        vec![Value::String("Bob".to_string()), Value::Int(-12), Value::Bool(false)]
    );
}

#[test]
fn duplicate_command_names_are_refused() {
    let mut c = Client::new("tok", 513, "!");
    c.register_commands(vec![greet()]).unwrap();
    assert_eq!(c.register_commands(vec![greet()]), Err(RegistrationError::DuplicateCommand));
    let clash = Command { name: "!greet".to_string(), args: vec![], handler: 2, custom_prefix: true };
    assert_eq!(c.register_commands(vec![clash]), Err(RegistrationError::DuplicateCommand));
    // the refused batch left the registry as it was
    assert_eq!(c.route_text("!greet A 1 true").unwrap().handler, 1);
}

#[test]
fn duplicate_within_a_batch_registers_nothing() {
    let mut c = Client::new("tok", 513, "!");
    let other = Command { name: "other".to_string(), args: vec![], handler: 3, custom_prefix: false };
    assert_eq!(
        c.register_commands(vec![other, greet(), greet()]),
        Err(RegistrationError::DuplicateCommand)
    );
    assert_eq!(c.route_text("!other"), None);
}

#[test]
fn events_register_once_per_type() {
    let mut c = Client::new("tok", 513, "!");
    let h = EventHandler { event: Event::MessageCreate, handler: 10 };
    c.register_events(vec![h, EventHandler { event: Event::Ready, handler: 11 }]).unwrap();
    assert_eq!(c.event_handler(Event::MessageCreate), Some(10));
    assert_eq!(c.event_handler(Event::Ready), Some(11));
    assert_eq!(c.event_handler(Event::GuildCreate), None);
    assert_eq!(
        c.register_events(vec![EventHandler { event: Event::Ready, handler: 12 }]),
        Err(RegistrationError::DuplicateEvent)
    );
    assert_eq!(c.event_handler(Event::Ready), Some(11));
}

#[test]
fn duplicate_event_in_batch_is_refused() {
    let mut c = Client::new("tok", 513, "!");
    let h = EventHandler { event: Event::TypingStart, handler: 1 };
    assert_eq!(c.register_events(vec![h, h]), Err(RegistrationError::DuplicateEvent));
    assert_eq!(c.event_handler(Event::TypingStart), None);
}

#[test]
fn client_keeps_token_prefix_and_intents() {
    let c = Client::new("SECRET-REDACTED", 513, "?");
    assert_eq!(c.token(), "SECRET-REDACTED");
    assert_eq!(c.prefix(), "?");
    assert_eq!(c.intents(), 513);
}

#[test]
fn slash_routing_by_command_id() {
    let mut c = Client::new("tok", 513, "!");
    let cmd = SlashCommand {
        name: "roll".to_string(),
        description: "rolls".to_string(),
        params: vec![SlashParam {
            name: "sides".to_string(),
            rename: None,
            description: "sides".to_string(),
            kind: ParamType::Int,
        }],
        handler: 20,
    };
    c.register_slash_command("555".to_string(), cmd);
    let inv = c.route_slash("555", &vec!["6".to_string()]).unwrap();
    assert_eq!(inv.handler, 20);
    assert_eq!(inv.args, vec![Value::Int(6)]);
    assert_eq!(c.route_slash("555", &vec!["six".to_string()]), None);
    assert_eq!(c.route_slash("556", &vec!["6".to_string()]), None);
}

#[test]
fn split_words_drops_runs_of_whitespace() {
    let ws = split_words("  a \t bc\n d  ");
    assert_eq!(ws, vec!["a".to_string(), "bc".to_string(), "d".to_string()]);
    assert!(split_words("").is_empty());
    let ws = split_words("x\u{A0}y\u{3000}z\u{2003}w");
    assert_eq!(ws, vec!["x".to_string(), "y".to_string(), "z".to_string(), "w".to_string()]);
    assert_eq!(split_words("a\u{200B}b"), vec!["a\u{200B}b".to_string()]);
}

#[test]
fn int_parsing_edges() {
    assert_eq!(parse_int("42"), Some(42));
    assert_eq!(parse_int("+7"), Some(7));
    assert_eq!(parse_int("-9223372036854775808"), Some(i64::MIN));
    assert_eq!(parse_int("9223372036854775807"), Some(i64::MAX));
    assert_eq!(parse_int("9223372036854775808"), None);
    assert_eq!(parse_int("-9223372036854775809"), None);
    assert_eq!(parse_int("99999999999999999999999"), None);
    assert_eq!(parse_int("-"), None);
    assert_eq!(parse_int(""), None);
    assert_eq!(parse_int("1a"), None);
}

#[test]
fn bool_parsing() {
    assert_eq!(parse_bool("TRUE"), Some(true));
    assert_eq!(parse_bool("false"), Some(false));
    assert_eq!(parse_bool("yes"), None);
    assert_eq!(parse_bool("truee"), None);
}

#[test]
fn coerce_string_is_verbatim() {
    assert_eq!(coerce(ParamType::String, "MiXeD"), Some(Value::String("MiXeD".to_string())));
    assert_eq!(coerce(ParamType::Int, "x"), None);
    assert_eq!(coerce(ParamType::User, "80351110224678912"), Some(Value::String("80351110224678912".to_string())));
    assert_eq!(coerce(ParamType::Channel, "41771983423143937"), Some(Value::String("41771983423143937".to_string())));
}

#[test]
fn commands_claim_messages_before_the_message_handler() {
    let mut c = Client::new("tok", 513, "!");
    c.register_commands(vec![greet()]).unwrap();
    c.register_events(vec![EventHandler { event: Event::MessageCreate, handler: 30 }]).unwrap();
    match c.route_message("!greet Al 1 true") {
        Route::Command(inv) => assert_eq!(inv.handler, 1),
        other => panic!("unexpected route {:?}", other),
    }
    assert_eq!(c.route_message("hello there"), Route::Handler(30));
    assert_eq!(c.route_event(Event::GuildCreate), Route::Nothing);
    assert_eq!(c.route_interaction("1", &vec![]), Route::Nothing);
}

#[test]
fn dispatch_routing_by_event_type() {
    let mut c = Client::new("tok", 513, "!");
    c.register_commands(vec![greet()]).unwrap();
    c.register_events(vec![EventHandler { event: Event::GuildCreate, handler: 40 }]).unwrap();
    let none: Vec<String> = vec![];
    match c.route_dispatch(Event::MessageCreate, "!greet Al 1 true", "", &none) {
        Route::Command(inv) => assert_eq!(inv.handler, 1),
        other => panic!("unexpected route {:?}", other),
    }
    assert_eq!(c.route_dispatch(Event::GuildCreate, "!greet Al 1 true", "", &none), Route::Handler(40));
    assert_eq!(c.route_dispatch(Event::InteractionCreate, "", "9", &none), Route::Nothing);
}
