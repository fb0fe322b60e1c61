use irc_core::error::Error;
use irc_core::message::Message;

fn args_of(m: &Message) -> Vec<String> {
    let mut it = m.raw_args();
    let mut v: Vec<String> = Vec::new();
    while let Some(a) = it.next() {
        v.push(a);
    }
    v
}

fn parse(s: &str) -> Result<Message, Error> {
    irc_core::parser::parse_message(String::from(s))
}

#[test]
fn scenario_ping_with_prefix() {
    let m = parse(":irc.example.com PING :tungsten").unwrap();
    let (name, user, host) = m.prefix().unwrap();
    assert_eq!(name, "irc.example.com");
    assert!(user.is_none());
    assert!(host.is_none());
    assert_eq!(m.raw_command(), "PING");
    assert_eq!(args_of(&m), vec!["tungsten".to_string()]);
}

#[test]
fn scenario_tagged_privmsg() {
    let m = parse("@id=123;time=2021 :nick!user@host PRIVMSG #chan :Hello world").unwrap();
    let tags = m.tags.clone().unwrap();
    assert_eq!(tags.len(), 2);
    let key0 = &m.message[tags[0].0.start..tags[0].0.end];
    let val0 = tags[0].1.map(|v| &m.message[v.start..v.end]);
    let key1 = &m.message[tags[1].0.start..tags[1].0.end];
    let val1 = tags[1].1.map(|v| &m.message[v.start..v.end]);
    assert_eq!((key0, val0), ("id", Some("123")));
    assert_eq!((key1, val1), ("time", Some("2021")));
    let (name, user, host) = m.prefix().unwrap();
    assert_eq!(name, "nick");
    assert_eq!(user, Some("user"));
    assert_eq!(host, Some("host"));
    assert_eq!(m.raw_command(), "PRIVMSG");
    assert_eq!(args_of(&m), vec!["#chan".to_string(), "Hello world".to_string()]);
}

#[test]
fn scenario_unterminated_tag() {
    assert_eq!(parse("@key=").unwrap_err(), Error::UnexpectedEndOfInput);
}

#[test]
fn empty_input_is_rejected() {
    assert_eq!(parse("").unwrap_err(), Error::UnexpectedEndOfInput);
}

#[test]
fn tag_without_value_and_empty_value_differ() {
    let m = parse("@a;b= PING x").unwrap();
    let tags = m.tags.clone().unwrap();
    assert_eq!(tags.len(), 2);
    assert_eq!(&m.message[tags[0].0.start..tags[0].0.end], "a");
    assert!(tags[0].1.is_none());
    assert_eq!(&m.message[tags[1].0.start..tags[1].0.end], "b");
    let v = tags[1].1.unwrap();
    assert_eq!(&m.message[v.start..v.end], "");
}

#[test]
fn tag_key_cut_by_end_of_input() {
    assert_eq!(parse("@key").unwrap_err(), Error::UnexpectedEndOfInput);
    assert_eq!(parse("@a;b").unwrap_err(), Error::UnexpectedEndOfInput);
}

#[test]
fn no_tags_no_prefix_parses() {
    let m = parse("PING xyz").unwrap();
    assert!(m.tags.is_none());
    assert!(m.prefix.is_none());
    assert_eq!(m.raw_command(), "PING");
    assert_eq!(args_of(&m), vec!["xyz".to_string()]);
}

#[test]
fn bare_command_parses() {
    let m = parse("QUIT").unwrap();
    assert_eq!(m.raw_command(), "QUIT");
    assert!(m.arguments.is_none());
    assert_eq!(args_of(&m).len(), 0);
}

#[test]
fn prefix_with_user_only() {
    let m = parse(":nick!user CMD x").unwrap();
    let (name, user, host) = m.prefix().unwrap();
    assert_eq!((name, user, host), ("nick", Some("user"), None));
}

#[test]
fn prefix_with_host_only() {
    let m = parse(":nick@host CMD x").unwrap();
    let (name, user, host) = m.prefix().unwrap();
    assert_eq!((name, user, host), ("nick", None, Some("host")));
}

#[test]
fn prefix_cut_by_end_of_input() {
    assert_eq!(parse(":irc.example.com").unwrap_err(), Error::UnexpectedEndOfInput);
    assert_eq!(parse(":nick!user@host").unwrap_err(), Error::UnexpectedEndOfInput);
}

#[test]
fn command_followed_by_final_space_is_rejected() {
    assert_eq!(parse("PING ").unwrap_err(), Error::UnexpectedEndOfInput);
}

#[test]
fn trailing_preserves_embedded_spaces() {
    let m = parse("CMD :a b  c").unwrap();
    assert_eq!(args_of(&m), vec!["a b  c".to_string()]);
}

#[test]
fn trailing_may_be_empty() {
    let m = parse("CMD :").unwrap();
    assert_eq!(args_of(&m), vec!["".to_string()]);
}

#[test]
fn middle_arguments_in_order() {
    let m = parse("CMD a b c").unwrap();
    assert_eq!(args_of(&m), vec!["a".to_string(), "b".to_string(), "c".to_string()]);
}

#[test]
fn middle_then_trailing() {
    let m = parse("CMD a :b c").unwrap();
    assert_eq!(args_of(&m), vec!["a".to_string(), "b c".to_string()]);
}

#[test]
fn empty_middle_argument_between_two_spaces() {
    let m = parse("CMD a  b").unwrap();
    assert_eq!(args_of(&m), vec!["a".to_string(), "".to_string(), "b".to_string()]);
}

#[test]
fn colon_inside_token_is_not_trailing() {
    let m = parse("CMD a:b x").unwrap();
    assert_eq!(args_of(&m), vec!["a:b".to_string(), "x".to_string()]);
}

#[test]
fn command_token_must_be_nonempty() {
    assert_eq!(parse(" PING").unwrap_err(), Error::UnexpectedEndOfInput);
    assert_eq!(parse(":pfx  CMD").unwrap_err(), Error::UnexpectedEndOfInput);
}

#[test]
fn tags_block_over_limit() {
    let line = format!("@k={} PING x", "a".repeat(600));
    match parse(&line).unwrap_err() {
        Error::InputTooLong(reason) => {
            assert_eq!(reason, "The tags length exceeded 512 bytes.");
        }
        other => panic!("expected InputTooLong, got {:?}", other),
    }
}

#[test]
fn tags_block_at_limit_parses() {
    // "@k=" + 508 bytes of value + the terminating space: 512 bytes.
    let line = format!("@k={} PING x", "a".repeat(508));
    assert!(parse(&line).is_ok());
    let over = format!("@k={} PING x", "a".repeat(509));
    assert!(matches!(parse(&over).unwrap_err(), Error::InputTooLong(_)));
}

#[test]
fn rest_of_line_over_limit() {
    let line = format!("PING :{}", "a".repeat(520));
    match parse(&line).unwrap_err() {
        Error::InputTooLong(reason) => {
            assert_eq!(reason, "The message length exceeded 512 bytes.");
        }
        other => panic!("expected InputTooLong, got {:?}", other),
    }
}

#[test]
fn rest_of_line_at_limit_parses() {
    let line = format!("PING :{}", "a".repeat(504));
    assert_eq!(line.len(), 510);
    assert!(parse(&line).is_ok());
}

#[test]
fn tags_do_not_count_against_rest_limit() {
    let line = format!("@k={} PING :{}", "a".repeat(300), "a".repeat(400));
    assert!(parse(&line).is_ok());
}

#[test]
fn size_limits_count_bytes_not_characters() {
    // Each repeated character is two bytes long, so this line is
    // 6 + 2 * 253 = 512 bytes although it is only 259 characters.
    let long = format!("PING :{}", "\u{e9}".repeat(253));
    match parse(&long).unwrap_err() {
        Error::InputTooLong(reason) => {
            assert_eq!(reason, "The message length exceeded 512 bytes.");
        }
        other => panic!("expected InputTooLong, got {:?}", other),
    }
    // One such character fewer brings the line to exactly 510 bytes.
    let fitting = format!("PING :{}", "\u{e9}".repeat(252));
    assert!(parse(&fitting).is_ok());
}

#[test]
fn round_trip_pong() {
    let m = Message::pong("tungsten").unwrap();
    assert_eq!(m.raw_message(), "PONG tungsten");
    let m2 = parse(m.raw_message()).unwrap();
    assert_eq!(m.command, m2.command);
    assert_eq!(m.arguments, m2.arguments);
    assert_eq!(m, m2);
}

#[test]
fn round_trip_nick() {
    let m = Message::nick("RustChatBot").unwrap();
    assert_eq!(m.raw_message(), "NICK RustChatBot");
    let m2 = parse(m.raw_message()).unwrap();
    assert_eq!(m.command, m2.command);
    assert_eq!(m.arguments, m2.arguments);
}

#[test]
fn round_trip_user() {
    let m = Message::user("bot", "A chat bot").unwrap();
    assert_eq!(m.raw_message(), "USER bot 0 * :A chat bot");
    assert_eq!(
        args_of(&m),
        vec!["bot".to_string(), "0".to_string(), "*".to_string(), "A chat bot".to_string()]
    );
    let m2 = parse(m.raw_message()).unwrap();
    assert_eq!(m.command, m2.command);
    assert_eq!(m.arguments, m2.arguments);
}

#[test]
fn round_trip_join() {
    let m = Message::join("#rustic", Some("password")).unwrap();
    assert_eq!(m.raw_message(), "JOIN #rustic password");
    let m2 = parse(m.raw_message()).unwrap();
    assert_eq!(m.command, m2.command);
    assert_eq!(m.arguments, m2.arguments);

    let m3 = Message::join("#a,#b", None).unwrap();
    assert_eq!(m3.raw_message(), "JOIN #a,#b");
    let m4 = parse(m3.raw_message()).unwrap();
    assert_eq!(m3.command, m4.command);
    assert_eq!(m3.arguments, m4.arguments);
}

#[test]
fn round_trip_priv_msg() {
    let m = Message::priv_msg("#chan", "Hello world").unwrap();
    assert_eq!(m.raw_message(), "PRIVMSG #chan :Hello world");
    let m2 = parse(m.raw_message()).unwrap();
    assert_eq!(m.command, m2.command);
    assert_eq!(m.arguments, m2.arguments);
    assert_eq!(m, m2);
}

#[test]
fn constructor_rejects_ill_formed_line() {
    assert_eq!(Message::pong("").unwrap_err(), Error::UnexpectedEndOfInput);
}

#[test]
fn try_from_parses() {
    let m = Message::try_from(String::from("PING :x")).unwrap();
    assert_eq!(m.raw_command(), "PING");
}
