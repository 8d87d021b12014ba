use eternacore::command::{default_layout, Command, CommandStep, PlatformEvent};
use eternacore::message::Message;
use eternacore::ping::Ping;
use eternacore::purge::Purge;
use eternacore::registry::{builtin_registry, BuiltinCommand, Registry};
use eternacore::request::{OptionKind, OptionValue, Request, RequestOption};
use eternacore::response::{AcknowledgeOutcome, ReplyAction, Response};

fn purge_request(number: i64) -> Request {
    let option = RequestOption {
        name: String::from("number"),
        kind: OptionKind::Integer,
        resolved: Some(OptionValue::Integer(number)),
    };
    Request::from_command_data_option_slice(7, Some(9), "purge", vec![option])
}

fn reply_text(step: CommandStep) -> (String, bool) {
    match step {
        CommandStep::Reply { message, ephemeral } => (message.get_content(), ephemeral),
        _ => panic!("expected a reply"),
    }
}

#[test]
fn message_new_reads_back() {
    let m = Message::new("hello there");
    assert_eq!(m.get_content(), "hello there");
}

#[test]
fn message_content_replaces() {
    let m = Message::new("first").content("second");
    assert_eq!(m.get_content(), "second");
    assert_ne!(m.get_content(), "first");
}

#[test]
fn message_empty_content() {
    let m = Message::from_string(String::new());
    assert_eq!(m.get_content(), "");
}

#[test]
fn builtin_names_are_lowercase_without_spaces() {
    let reg = builtin_registry();
    for i in 0..reg.len() {
        let name = reg.get(i).name();
        assert!(!name.is_empty());
        assert!(!name.contains(' '));
        assert_eq!(name, name.to_lowercase());
    }
}

#[test]
fn dispatch_same_name_same_handler() {
    let reg = builtin_registry();
    let a = reg.dispatch("purge");
    let b = reg.dispatch("purge");
    assert_eq!(a, Some(1));
    assert_eq!(a, b);
    assert_eq!(reg.dispatch("ping"), Some(0));
}

#[test]
fn dispatch_unknown_name_is_dropped() {
    let reg = builtin_registry();
    assert_eq!(reg.dispatch("kick"), None);
    assert_eq!(reg.dispatch(""), None);
    assert_eq!(reg.dispatch("Ping"), None);
}

#[test]
fn dispatch_first_match_wins() {
    let reg: Registry<BuiltinCommand> = Registry::new(vec![
        BuiltinCommand::Purge(Purge),
        BuiltinCommand::Ping(Ping),
        BuiltinCommand::Ping(Ping),
    ]);
    assert_eq!(reg.dispatch("ping"), Some(1));
}

#[test]
fn layouts_follow_registration_order() {
    let layouts = builtin_registry().layouts();
    assert_eq!(layouts.len(), 2);
    assert_eq!(layouts[0].name, "ping");
    assert_eq!(layouts[0].description, "Ping? Pong!");
    assert!(layouts[0].options.is_empty());
    assert_eq!(layouts[1].name, "purge");
    assert_eq!(layouts[1].description, "Bulk delete up to 100 messages");
    let number = &layouts[1].options[0];
    assert_eq!(number.name, "number");
    assert_eq!(number.description, "Number of messages to delete");
    assert_eq!(number.kind, OptionKind::Integer);
    assert_eq!(number.min_int_value, Some(0));
    assert_eq!(number.max_int_value, Some(100));
    assert!(number.required);
}

#[test]
fn default_layout_has_no_options() {
    let l = default_layout(String::from("x"), String::new());
    assert_eq!(l.name, "x");
    assert_eq!(l.description, "");
    assert!(l.options.is_empty());
}

#[test]
fn ping_replies_pong_once() {
    let req = Request::from_command_data_option_slice(1, None, "ping", vec![]);
    let (text, ephemeral) = reply_text(Ping.run(&req));
    assert_eq!(text, "Pong!");
    assert!(ephemeral);
    assert!(matches!(Ping.resume(&req, PlatformEvent::Replied), CommandStep::Finish));
}

#[test]
fn purge_zero_fetches_nothing_and_says_so() {
    let req = purge_request(0);
    match Purge.run(&req) {
        CommandStep::FetchMessages { limit } => assert_eq!(limit, 0),
        _ => panic!("expected a fetch"),
    }
    let step = Purge.resume(&req, PlatformEvent::MessagesFetched { ids: vec![] });
    let (text, ephemeral) = reply_text(step);
    assert_eq!(text, "Nothing left to delete.");
    assert!(ephemeral);
}

#[test]
fn purge_deletes_what_was_fetched() {
    let req = purge_request(3);
    match Purge.run(&req) {
        CommandStep::FetchMessages { limit } => assert_eq!(limit, 3),
        _ => panic!("expected a fetch"),
    }
    match Purge.resume(&req, PlatformEvent::MessagesFetched { ids: vec![11, 12, 13] }) {
        CommandStep::DeleteMessages { ids } => assert_eq!(ids, vec![11, 12, 13]),
        _ => panic!("expected a deletion"),
    }
    let (text, ephemeral) = reply_text(Purge.resume(&req, PlatformEvent::MessagesDeleted));
    assert_eq!(text, "3 messages deleted successfully!");
    assert!(ephemeral);
}

#[test]
fn purge_reports_largest_count() {
    let req = purge_request(100);
    let (text, _) = reply_text(Purge.resume(&req, PlatformEvent::MessagesDeleted));
    assert_eq!(text, "100 messages deleted successfully!");
}

#[test]
fn purge_permission_error_ignores_number() {
    let expected = "I don't have enough permissions to bulk delete messages, please, enable `Manage Messages` permission and execute the command again.";
    for n in [1, 42, 100] {
        let (text, ephemeral) = reply_text(Purge.resume(&purge_request(n), PlatformEvent::DeleteFailed));
        assert_eq!(text, expected);
        assert!(ephemeral);
    }
}

#[test]
fn purge_unreadable_channel() {
    let (text, ephemeral) = reply_text(Purge.resume(&purge_request(5), PlatformEvent::FetchFailed));
    assert_eq!(text, "Cannot view current channel!");
    assert!(ephemeral);
}

#[test]
fn purge_malformed_request_ends() {
    let req = Request::from_command_data_option_slice(1, None, "purge", vec![]);
    assert!(matches!(Purge.run(&req), CommandStep::Finish));
    assert!(matches!(Purge.run(&purge_request(101)), CommandStep::Finish));
    assert!(matches!(Purge.run(&purge_request(-1)), CommandStep::Finish));
    let text = RequestOption {
        name: String::from("number"),
        kind: OptionKind::String,
        resolved: Some(OptionValue::String(String::from("5"))),
    };
    let req = Request::from_command_data_option_slice(1, None, "purge", vec![text]);
    assert!(matches!(Purge.run(&req), CommandStep::Finish));
    assert_eq!(Purge::requested_number(&purge_request(64)), Some(64));
}

#[test]
fn request_keeps_its_fields() {
    let req = purge_request(4);
    assert_eq!(req.channel, 7);
    assert_eq!(req.guild, Some(9));
    let command = req.command();
    assert_eq!(command.name(), "purge");
    assert_eq!(command.options().len(), 1);
    assert_eq!(command.options()[0].name, "number");
}

#[test]
fn interaction_reply_acknowledges_first() {
    let res = Response::from_interaction_command(55);
    assert!(res.is_interaction_command());
    assert!(!res.is_message_command());
    match res.send_ephemeral_message(Message::new("hi"), true) {
        ReplyAction::Acknowledge { content, ephemeral } => {
            assert_eq!(content, "hi");
            assert!(ephemeral);
        }
        _ => panic!("expected an acknowledgement"),
    }
    match res.send_message(Message::new("all")) {
        ReplyAction::Acknowledge { content, ephemeral } => {
            assert_eq!(content, "all");
            assert!(!ephemeral);
        }
        _ => panic!("expected an acknowledgement"),
    }
}

#[test]
fn conflict_falls_back_to_follow_up() {
    let res = Response::from_interaction_command(55);
    let m = Message::new("late");
    let outcome = AcknowledgeOutcome::from_error_code(Some(40060));
    assert_eq!(outcome, AcknowledgeOutcome::AlreadyAcknowledged);
    match res.after_acknowledge(&m, outcome) {
        ReplyAction::FollowUp { content } => assert_eq!(content, "late"),
        _ => panic!("expected a follow-up"),
    }
    assert!(matches!(res.after_follow_up(true), ReplyAction::Done));
    assert!(matches!(
        res.after_follow_up(false),
        ReplyAction::ReportFollowUpFailure { interaction: 55 }
    ));
}

#[test]
fn no_follow_up_without_conflict() {
    let res = Response::from_interaction_command(8);
    let m = Message::new("x");
    assert!(matches!(res.after_acknowledge(&m, AcknowledgeOutcome::Delivered), ReplyAction::Done));
    let other = AcknowledgeOutcome::from_error_code(Some(50013));
    assert_eq!(other, AcknowledgeOutcome::Failed);
    assert_eq!(AcknowledgeOutcome::from_error_code(None), AcknowledgeOutcome::Failed);
    assert!(matches!(
        res.after_acknowledge(&m, other),
        ReplyAction::ReportAcknowledgeFailure { interaction: 8 }
    ));
}

#[test]
fn message_origin_sends_nothing() {
    let res = Response::from_message(3);
    assert!(res.is_message_command());
    assert!(matches!(res.send_message(Message::new("x")), ReplyAction::Done));
    assert!(matches!(
        res.after_acknowledge(&Message::new("x"), AcknowledgeOutcome::AlreadyAcknowledged),
        ReplyAction::Done
    ));
    assert_eq!(res.to_message(), Some(3));
    assert_eq!(res.to_application_command_interaction(), None);
    assert_eq!(Response::from_interaction_command(4).to_application_command_interaction(), Some(4));
    assert_eq!(Response::from_interaction_command(4).to_message(), None);
}
