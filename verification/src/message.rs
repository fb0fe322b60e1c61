//! The `Message` type: one protocol line, owned, together with the spans
//! the parser produced for it, and constructor helpers for outbound lines.

use vstd::prelude::*;

use crate::command::{parse_matches, ArgumentIter, Command};
use crate::error::Error;
use crate::parser::{parse_message, parse_result_matches};
use crate::span::{span_ok, span_text, Span};

verus! {

/// The spans of a prefix block: the whole block and its name, user and
/// host components.
#[derive(Clone, Copy, PartialEq, Eq, Debug)]
pub struct PrefixRange {
    pub raw_prefix: Span,
    pub prefix: Span,
    pub user: Option<Span>,
    pub host: Option<Span>,
}

/// One tag of the tags block: a key span and, for `key=value`, a value
/// span.  A key written without `=` carries no value at all; `key=` with
/// nothing after it carries an empty one.
pub type TagRange = (Span, Option<Span>);

/// One parsed protocol line.  It owns the raw text; every span refers to
/// that text.  A message is immutable after construction.
#[derive(Clone, PartialEq, Eq, Debug)]
pub struct Message {
    pub message: String,
    pub tags: Option<Vec<TagRange>>,
    pub prefix: Option<PrefixRange>,
    pub command: Span,
    pub arguments: Option<Vec<Span>>,
}

/// Whether every span of a tag lies inside a buffer of length `n`.
pub open spec fn tag_ok(t: TagRange, n: nat) -> bool {
    &&& span_ok(t.0, n)
    &&& match t.1 {
        Some(v) => span_ok(v, n),
        None => true,
    }
}

/// Whether every span of a prefix lies inside a buffer of length `n`.
pub open spec fn prefix_ok(p: PrefixRange, n: nat) -> bool {
    &&& span_ok(p.raw_prefix, n)
    &&& span_ok(p.prefix, n)
    &&& match p.user {
        Some(u) => span_ok(u, n),
        None => true,
    }
    &&& match p.host {
        Some(h) => span_ok(h, n),
        None => true,
    }
}

/// The span structure of a message, with the vectors abstracted to
/// sequences: what the parsing model computes from the raw text.
pub struct MessageShape {
    pub tags: Option<Seq<TagRange>>,
    pub prefix: Option<PrefixRange>,
    pub command: Span,
    pub arguments: Option<Seq<Span>>,
}

impl Message {
    /// The span structure of this message.
    pub open spec fn shape(&self) -> MessageShape {
        MessageShape {
            tags: match self.tags {
                Some(ts) => Some(ts@),
                None => None,
            },
            prefix: self.prefix,
            command: self.command,
            arguments: match self.arguments {
                Some(a) => Some(a@),
                None => None,
            },
        }
    }

    /// Every span of the message lies inside its own text.
    pub open spec fn wf(&self) -> bool {
        let n = self.message@.len();
        &&& span_ok(self.command, n)
        &&& match self.tags {
            Some(ts) => forall|i: int| 0 <= i < ts@.len() ==> tag_ok(#[trigger] ts@[i], n),
            None => true,
        }
        &&& match self.prefix {
            Some(p) => prefix_ok(p, n),
            None => true,
        }
        &&& match self.arguments {
            Some(a) => forall|i: int| 0 <= i < a@.len() ==> span_ok(#[trigger] a@[i], n),
            None => true,
        }
    }

    /// The text of the command token.
    pub open spec fn cmd_text(&self) -> Seq<char> {
        span_text(self.message@, self.command)
    }

    /// The texts of the arguments, in order; empty when the line had none.
    pub open spec fn args_texts(&self) -> Seq<Seq<char>> {
        match self.arguments {
            None => Seq::empty(),
            Some(a) => a@.map_values(|sp: Span| span_text(self.message@, sp)),
        }
    }

    /// Attempts to construct a message from one raw protocol line.
    pub fn try_from(value: String) -> (r: Result<Message, Error>)
        ensures
            parse_result_matches(value@, r),
    {
        parse_message(value)
    }

    /// The raw command token of this message.
    pub fn raw_command<'a>(&'a self) -> (r: &'a str)
        requires
            self.wf(),
        ensures
            r@ == self.cmd_text(),
    {
        self.message.as_str().substring_char(self.command.start, self.command.end)
    }

    /// The raw line this message was constructed from.
    pub fn raw_message<'a>(&'a self) -> (r: &'a str)
        ensures
            r@ == self.message@,
    {
        self.message.as_str()
    }

    /// The prefix of this message, if there is one: its name, and the
    /// user and host when the prefix carries them.
    pub fn prefix<'a>(&'a self) -> (r: Option<(&'a str, Option<&'a str>, Option<&'a str>)>)
        requires
            self.wf(),
        ensures
            match self.prefix {
                None => r is None,
                Some(p) => r matches Some(t) && t.0@ == span_text(self.message@, p.prefix)
                    && (match (t.1, p.user) {
                    (Some(u), Some(us)) => u@ == span_text(self.message@, us),
                    (None, None) => true,
                    _ => false,
                }) && (match (t.2, p.host) {
                    (Some(h), Some(hs)) => h@ == span_text(self.message@, hs),
                    (None, None) => true,
                    _ => false,
                }),
            },
    {
        match &self.prefix {
            None => None,
            Some(p) => {
                let name = self.message.as_str().substring_char(p.prefix.start, p.prefix.end);
                let user = match p.user {
                    Some(us) => Some(self.message.as_str().substring_char(us.start, us.end)),
                    None => None,
                };
                let host = match p.host {
                    Some(hs) => Some(self.message.as_str().substring_char(hs.start, hs.end)),
                    None => None,
                };
                Some((name, user, host))
            },
        }
    }

    /// A cursor over the raw arguments of this message.
    pub fn raw_args(&self) -> (r: ArgumentIter)
        requires
            self.wf(),
        ensures
            r.wf(),
            r.remaining() == self.args_texts(),
    {
        match &self.arguments {
            None => {
                let empty: Vec<String> = Vec::new();
                proof {
                    assert(empty.deep_view() =~= self.args_texts());
                }
                ArgumentIter::new(empty)
            },
            Some(spans) => {
                let n = spans.len();
                let mut texts: Vec<String> = Vec::new();
                let mut i: usize = 0;
                while i < n
                    invariant
                        self.wf(),
                        i <= n,
                        self.arguments matches Some(sp2) && sp2@ == spans@,
                        n == spans@.len(),
                        texts.deep_view() =~= self.args_texts().subrange(0, i as int),
                    decreases n - i,
                {
                    let sp = spans[i];
                    let w = String::from_str(
                        self.message.as_str().substring_char(sp.start, sp.end),
                    );
                    let ghost prev = texts.deep_view();
                    texts.push(w);
                    proof {
                        assert(texts.deep_view() =~= prev.push(w@));
                        assert(self.args_texts().subrange(0, i + 1 as int) =~= self.args_texts()
                            .subrange(0, i as int).push(self.args_texts()[i as int]));
                    }
                    i = i + 1;
                }
                proof {
                    assert(texts.deep_view() =~= self.args_texts());
                }
                ArgumentIter::new(texts)
            },
        }
    }

    /// The typed view of this message for the command type `T`: parsed
    /// iff the raw command token equals `T`'s name and the arguments fit.
    pub fn command<T: Command>(&self) -> (r: Option<T>)
        requires
            self.wf(),
        ensures
            self.cmd_text() == T::name_spec() ==> parse_matches::<T>(self.args_texts(), r),
            self.cmd_text() != T::name_spec() ==> r is None,
    {
        T::try_match(self.raw_command(), self.raw_args())
    }

    /// Constructs the line `PONG <host>` and re-validates it through the
    /// parser, so an emitted message is itself well-formed.
    pub fn pong(host: &str) -> (r: Result<Message, Error>)
        ensures
            parse_result_matches("PONG "@ + host@, r),
    {
        let mut text = String::from_str("PONG ");
        text.append(host);
        parse_message(text)
    }

    /// Constructs the line `NICK <nick>` and re-validates it through the
    /// parser.
    pub fn nick(nick: &str) -> (r: Result<Message, Error>)
        ensures
            parse_result_matches("NICK "@ + nick@, r),
    {
        let mut text = String::from_str("NICK ");
        text.append(nick);
        parse_message(text)
    }

    /// Constructs the line `USER <username> 0 * :<real name>` and
    /// re-validates it through the parser.
    pub fn user(username: &str, real_name: &str) -> (r: Result<Message, Error>)
        ensures
            parse_result_matches("USER "@ + username@ + " 0 * :"@ + real_name@, r),
    {
        let mut text = String::from_str("USER ");
        text.append(username);
        text.append(" 0 * :");
        text.append(real_name);
        parse_message(text)
    }

    /// Constructs the line `JOIN <channels>[ <keys>]` and re-validates it
    /// through the parser.  `channels`, and `keys` when given, are comma
    /// separated lists.
    pub fn join(channels: &str, keys: Option<&str>) -> (r: Result<Message, Error>)
        ensures
            match keys {
                Some(k) => parse_result_matches("JOIN "@ + channels@ + " "@ + k@, r),
                None => parse_result_matches("JOIN "@ + channels@, r),
            },
    {
        let mut text = String::from_str("JOIN ");
        text.append(channels);
        match keys {
            Some(k) => {
                text.append(" ");
                text.append(k);
            },
            None => {},
        }
        parse_message(text)
    }

    /// Constructs the line `PRIVMSG <targets> :<message>` and
    /// re-validates it through the parser.
    pub fn priv_msg(targets: &str, message: &str) -> (r: Result<Message, Error>)
        ensures
            parse_result_matches("PRIVMSG "@ + targets@ + " :"@ + message@, r),
    {
        let mut text = String::from_str("PRIVMSG ");
        text.append(targets);
        text.append(" :");
        text.append(message);
        parse_message(text)
    }
}

impl core::str::FromStr for Message {
    type Err = Error;

    fn from_str(input: &str) -> Result<Message, Error> {
        Message::try_from(input.to_owned())
    }
}

} // verus!
