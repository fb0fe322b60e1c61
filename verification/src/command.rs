//! Strongly typed access to the commands a message may carry: an
//! argument cursor that can be walked from both ends, the `Command`
//! capability, and the built-in command views.

use vstd::prelude::*;

use crate::text::{spec_split_ws, split_words, str_eq};

verus! {

/// A cursor over the argument texts of a message.  It owns the texts and
/// walks them from the front with `next` and from the back with
/// `next_back`; the two ends advance toward each other.
#[derive(Clone, Debug)]
pub struct ArgumentIter {
    args: Vec<String>,
    front: usize,
    back: usize,
}

impl ArgumentIter {
    /// The cursor's bounds are ordered and inside its argument list.
    pub closed spec fn wf(&self) -> bool {
        self.front <= self.back <= self.args@.len()
    }

    /// The argument texts not yet consumed from either end, in order.
    pub closed spec fn remaining(&self) -> Seq<Seq<char>> {
        self.args.deep_view().subrange(self.front as int, self.back as int)
    }

    /// A cursor over all of `args`.
    pub fn new(args: Vec<String>) -> (r: ArgumentIter)
        ensures
            r.wf(),
            r.remaining() == args.deep_view(),
    {
        let n = args.len();
        let r = ArgumentIter { args, front: 0, back: n };
        proof {
            assert(r.remaining() =~= r.args.deep_view());
        }
        r
    }

    /// How many arguments are still unconsumed.
    pub fn remaining_len(&self) -> (r: usize)
        requires
            self.wf(),
        ensures
            r == self.remaining().len(),
    {
        self.back - self.front
    }

    /// Takes the next argument from the front, if one is left.
    pub fn next(&mut self) -> (r: Option<String>)
        requires
            old(self).wf(),
        ensures
            final(self).wf(),
            old(self).remaining().len() == 0 ==> r is None && *final(self) == *old(self),
            old(self).remaining().len() > 0 ==> (r matches Some(s) && s@ == old(
                self,
            ).remaining()[0] && final(self).remaining() == old(self).remaining().drop_first()),
    {
        if self.front < self.back {
            let s = self.args[self.front].clone();
            self.front = self.front + 1;
            proof {
                assert(self.remaining() =~= old(self).remaining().drop_first());
            }
            Some(s)
        } else {
            None
        }
    }

    /// Takes the next argument from the back, if one is left.
    pub fn next_back(&mut self) -> (r: Option<String>)
        requires
            old(self).wf(),
        ensures
            final(self).wf(),
            old(self).remaining().len() == 0 ==> r is None && *final(self) == *old(self),
            old(self).remaining().len() > 0 ==> (r matches Some(s) && s@ == old(
                self,
            ).remaining().last() && final(self).remaining() == old(self).remaining().drop_last()),
    {
        if self.front < self.back {
            self.back = self.back - 1;
            let s = self.args[self.back].clone();
            proof {
                assert(self.remaining() =~= old(self).remaining().drop_last());
            }
            Some(s)
        } else {
            None
        }
    }
}

/// Whether an attempt `r` is exactly what `T`'s parsing model makes of
/// the argument texts `args`: the parsed view on the model's success, and
/// nothing on its failure.
pub open spec fn parse_matches<T: Command>(args: Seq<Seq<char>>, r: Option<T>) -> bool {
    match (r, T::parse_spec(args)) {
        (Some(v), Some(m)) => v@ == m,
        (None, None) => true,
        _ => false,
    }
}

/// The capability of a typed command view: a canonical name, a parse of
/// an argument cursor that never panics on malformed input, and a match
/// entry point that parses iff the command token equals the name.
pub trait Command: View + Sized {
    /// The canonical command token this type matches.
    spec fn name_spec() -> Seq<char>;

    /// What parsing the argument texts yields: the view of the parsed
    /// value, or `None` on a shape mismatch.
    spec fn parse_spec(args: Seq<Seq<char>>) -> Option<Self::V>;

    /// The canonical command token, as text.
    fn name() -> (r: String)
        ensures
            r@ == Self::name_spec(),
    ;

    /// Attempts to build the typed view from the argument cursor;
    /// `None` on a shape mismatch.
    fn parse(arguments: ArgumentIter) -> (r: Option<Self>)
        requires
            arguments.wf(),
        ensures
            match (r, Self::parse_spec(arguments.remaining())) {
                (Some(v), Some(m)) => v@ == m,
                (None, None) => true,
                _ => false,
            },
    ;

    /// Returns the parsed view iff `command` equals this type's name.
    fn try_match(command: &str, arguments: ArgumentIter) -> (r: Option<Self>)
        requires
            arguments.wf(),
        ensures
            command@ == Self::name_spec() ==> match (r, Self::parse_spec(arguments.remaining())) {
                (Some(v), Some(m)) => v@ == m,
                (None, None) => true,
                _ => false,
            },
            command@ != Self::name_spec() ==> r is None,
    {
        if str_eq(command, Self::name().as_str()) {
            Self::parse(arguments)
        } else {
            None
        }
    }
}

/// Takes the single argument of a one-argument command, or `None` when
/// the cursor does not hold exactly one.
fn parse_one(arguments: ArgumentIter) -> (r: Option<String>)
    requires
        arguments.wf(),
    ensures
        arguments.remaining().len() == 1 ==> (r matches Some(a) && a@ == arguments.remaining()[0]),
        arguments.remaining().len() != 1 ==> r is None,
{
    let mut arguments = arguments;
    if arguments.remaining_len() != 1 {
        return None;
    }
    arguments.next()
}

/// Takes the two arguments of a two-argument command, or `None` when the
/// cursor does not hold exactly two.
fn parse_two(arguments: ArgumentIter) -> (r: Option<(String, String)>)
    requires
        arguments.wf(),
    ensures
        arguments.remaining().len() == 2 ==> (r matches Some(p) && p.0@ == arguments.remaining()[0]
            && p.1@ == arguments.remaining()[1]),
        arguments.remaining().len() != 2 ==> r is None,
{
    let mut arguments = arguments;
    if arguments.remaining_len() != 2 {
        return None;
    }
    let a = match arguments.next() {
        Some(a) => a,
        None => return None,
    };
    let b = match arguments.next() {
        Some(b) => b,
        None => return None,
    };
    Some((a, b))
}

/// A PING command.  The element is the host.
pub struct Ping(pub String);

impl View for Ping {
    type V = Seq<char>;

    open spec fn view(&self) -> Seq<char> {
        self.0@
    }
}

impl Command for Ping {
    open spec fn name_spec() -> Seq<char> {
        "PING"@
    }

    open spec fn parse_spec(args: Seq<Seq<char>>) -> Option<Seq<char>> {
        if args.len() == 1 {
            Some(args[0])
        } else {
            None
        }
    }

    fn name() -> (r: String) {
        String::from_str("PING")
    }

    fn parse(arguments: ArgumentIter) -> (r: Option<Ping>) {
        match parse_one(arguments) {
            Some(host) => Some(Ping(host)),
            None => None,
        }
    }
}

/// A PONG command.  The element is the host.
pub struct Pong(pub String);

impl View for Pong {
    type V = Seq<char>;

    open spec fn view(&self) -> Seq<char> {
        self.0@
    }
}

impl Command for Pong {
    open spec fn name_spec() -> Seq<char> {
        "PONG"@
    }

    open spec fn parse_spec(args: Seq<Seq<char>>) -> Option<Seq<char>> {
        if args.len() == 1 {
            Some(args[0])
        } else {
            None
        }
    }

    fn name() -> (r: String) {
        String::from_str("PONG")
    }

    fn parse(arguments: ArgumentIter) -> (r: Option<Pong>) {
        match parse_one(arguments) {
            Some(host) => Some(Pong(host)),
            None => None,
        }
    }
}

/// A PRIVMSG command.  The elements are the target and the message.
pub struct PrivMsg(pub String, pub String);

impl View for PrivMsg {
    type V = (Seq<char>, Seq<char>);

    open spec fn view(&self) -> (Seq<char>, Seq<char>) {
        (self.0@, self.1@)
    }
}

impl Command for PrivMsg {
    open spec fn name_spec() -> Seq<char> {
        "PRIVMSG"@
    }

    open spec fn parse_spec(args: Seq<Seq<char>>) -> Option<(Seq<char>, Seq<char>)> {
        if args.len() == 2 {
            Some((args[0], args[1]))
        } else {
            None
        }
    }

    fn name() -> (r: String) {
        String::from_str("PRIVMSG")
    }

    fn parse(arguments: ArgumentIter) -> (r: Option<PrivMsg>) {
        match parse_two(arguments) {
            Some((target, message)) => Some(PrivMsg(target, message)),
            None => None,
        }
    }
}

/// The WELCOME numeric.  The elements are the user and the welcome text.
pub struct Welcome(pub String, pub String);

impl View for Welcome {
    type V = (Seq<char>, Seq<char>);

    open spec fn view(&self) -> (Seq<char>, Seq<char>) {
        (self.0@, self.1@)
    }
}

impl Command for Welcome {
    open spec fn name_spec() -> Seq<char> {
        "001"@
    }

    open spec fn parse_spec(args: Seq<Seq<char>>) -> Option<(Seq<char>, Seq<char>)> {
        if args.len() == 2 {
            Some((args[0], args[1]))
        } else {
            None
        }
    }

    fn name() -> (r: String) {
        String::from_str("001")
    }

    fn parse(arguments: ArgumentIter) -> (r: Option<Welcome>) {
        match parse_two(arguments) {
            Some((user, message)) => Some(Welcome(user, message)),
            None => None,
        }
    }
}

/// The YOURHOST numeric.  The elements are the user and the text.
pub struct YourHost(pub String, pub String);

impl View for YourHost {
    type V = (Seq<char>, Seq<char>);

    open spec fn view(&self) -> (Seq<char>, Seq<char>) {
        (self.0@, self.1@)
    }
}

impl Command for YourHost {
    open spec fn name_spec() -> Seq<char> {
        "002"@
    }

    open spec fn parse_spec(args: Seq<Seq<char>>) -> Option<(Seq<char>, Seq<char>)> {
        if args.len() == 2 {
            Some((args[0], args[1]))
        } else {
            None
        }
    }

    fn name() -> (r: String) {
        String::from_str("002")
    }

    fn parse(arguments: ArgumentIter) -> (r: Option<YourHost>) {
        match parse_two(arguments) {
            Some((user, message)) => Some(YourHost(user, message)),
            None => None,
        }
    }
}

/// The CREATED numeric.  The elements are the user and the text.
pub struct Created(pub String, pub String);

impl View for Created {
    type V = (Seq<char>, Seq<char>);

    open spec fn view(&self) -> (Seq<char>, Seq<char>) {
        (self.0@, self.1@)
    }
}

impl Command for Created {
    open spec fn name_spec() -> Seq<char> {
        "003"@
    }

    open spec fn parse_spec(args: Seq<Seq<char>>) -> Option<(Seq<char>, Seq<char>)> {
        if args.len() == 2 {
            Some((args[0], args[1]))
        } else {
            None
        }
    }

    fn name() -> (r: String) {
        String::from_str("003")
    }

    fn parse(arguments: ArgumentIter) -> (r: Option<Created>) {
        match parse_two(arguments) {
            Some((user, message)) => Some(Created(user, message)),
            None => None,
        }
    }
}

/// The MYINFO numeric.  The elements are the user and the server info.
pub struct ServerInfo(pub String, pub String);

impl View for ServerInfo {
    type V = (Seq<char>, Seq<char>);

    open spec fn view(&self) -> (Seq<char>, Seq<char>) {
        (self.0@, self.1@)
    }
}

impl Command for ServerInfo {
    open spec fn name_spec() -> Seq<char> {
        "004"@
    }

    open spec fn parse_spec(args: Seq<Seq<char>>) -> Option<(Seq<char>, Seq<char>)> {
        if args.len() == 2 {
            Some((args[0], args[1]))
        } else {
            None
        }
    }

    fn name() -> (r: String) {
        String::from_str("004")
    }

    fn parse(arguments: ArgumentIter) -> (r: Option<ServerInfo>) {
        match parse_two(arguments) {
            Some((user, message)) => Some(ServerInfo(user, message)),
            None => None,
        }
    }
}

/// How a channel is marked in a NAMES reply.
#[derive(Clone, Copy, PartialEq, Eq, Structural, Debug)]
pub enum NamesReplyChannelType {
    Secret,
    Private,
    Other,
}

/// The channel type a marker argument selects: `@` is secret, `*` is
/// private, anything else is ordinary.
pub open spec fn marker_type(m: Seq<char>) -> NamesReplyChannelType {
    if m == seq!['@'] {
        NamesReplyChannelType::Secret
    } else if m == seq!['*'] {
        NamesReplyChannelType::Private
    } else {
        NamesReplyChannelType::Other
    }
}

/// Reads the channel-type marker out of an argument text.
fn channel_type_of(m: &str) -> (r: NamesReplyChannelType)
    ensures
        r == marker_type(m@),
{
    proof {
        assert(seq!['@'].len() == 1 && seq!['@'][0] == '@');
        assert(seq!['*'].len() == 1 && seq!['*'][0] == '*');
    }
    let n = m.unicode_len();
    if n == 1 {
        let c = m.get_char(0);
        if c == '@' {
            proof {
                assert(m@ =~= seq!['@']);
            }
            NamesReplyChannelType::Secret
        } else if c == '*' {
            proof {
                assert(m@ =~= seq!['*']);
            }
            NamesReplyChannelType::Private
        } else {
            NamesReplyChannelType::Other
        }
    } else {
        NamesReplyChannelType::Other
    }
}

/// The NAMES numeric reply.  The elements are the channel type, the
/// channel, and the whitespace-split list of names.
pub struct NamesReply(pub NamesReplyChannelType, pub String, pub Vec<String>);

impl View for NamesReply {
    type V = (NamesReplyChannelType, Seq<char>, Seq<Seq<char>>);

    open spec fn view(&self) -> (NamesReplyChannelType, Seq<char>, Seq<Seq<char>>) {
        (self.0, self.1@, self.2.deep_view())
    }
}

impl Command for NamesReply {
    open spec fn name_spec() -> Seq<char> {
        "353"@
    }

    /// The components are extracted in reverse, because the leading
    /// channel-type marker is optional: the last argument splits into the
    /// names, the one before it is the channel, and a third-from-last
    /// argument, when present, selects the channel type.
    open spec fn parse_spec(args: Seq<Seq<char>>) -> Option<
        (NamesReplyChannelType, Seq<char>, Seq<Seq<char>>),
    > {
        if args.len() < 2 {
            None
        } else {
            let ct = if args.len() >= 3 {
                marker_type(args[args.len() - 3])
            } else {
                NamesReplyChannelType::Other
            };
            Some((ct, args[args.len() - 2], spec_split_ws(args[args.len() - 1], 0)))
        }
    }

    fn name() -> (r: String) {
        String::from_str("353")
    }

    fn parse(arguments: ArgumentIter) -> (r: Option<NamesReply>) {
        let mut arguments = arguments;
        if arguments.remaining_len() < 2 {
            return None;
        }
        let names_src = match arguments.next_back() {
            Some(x) => x,
            None => return None,
        };
        let channel = match arguments.next_back() {
            Some(x) => x,
            None => return None,
        };
        let ctype = match arguments.next_back() {
            Some(m) => channel_type_of(m.as_str()),
            None => NamesReplyChannelType::Other,
        };
        let names = split_words(names_src.as_str());
        Some(NamesReply(ctype, channel, names))
    }
}

/// Back-to-front parsing of a NAMES reply: the channel and the names are
/// recovered from the last two arguments whatever precedes them, and the
/// channel type comes from the argument directly before the channel when
/// one is there, and is ordinary when none is.
pub proof fn lemma_names_reply_back_to_front(
    extra: Seq<Seq<char>>,
    channel: Seq<char>,
    names: Seq<char>,
)
    ensures
        ({
            let args = extra + seq![channel, names];
            NamesReply::parse_spec(args) matches Some(v) && v.1 == channel && v.2
                == spec_split_ws(names, 0) && v.0 == (if extra.len() > 0 {
                marker_type(extra.last())
            } else {
                NamesReplyChannelType::Other
            })
        }),
{
    let args = extra + seq![channel, names];
    assert(args.len() == extra.len() + 2);
    assert(args[args.len() - 1] == names);
    assert(args[args.len() - 2] == channel);
    if extra.len() > 0 {
        assert(args[args.len() - 3] == extra[extra.len() - 1]);
    }
}

/// Back-to-front parsing of an end-of-NAMES reply: the channel and the
/// closing message are recovered from the last two arguments whatever
/// precedes them.
pub proof fn lemma_end_names_back_to_front(
    extra: Seq<Seq<char>>,
    channel: Seq<char>,
    message: Seq<char>,
)
    ensures
        ({
            let args = extra + seq![channel, message];
            EndNamesReply::parse_spec(args) matches Some(v) && v.0 == channel && v.1 == message
        }),
{
    let args = extra + seq![channel, message];
    assert(args.len() == extra.len() + 2);
    assert(args[args.len() - 1] == message);
    assert(args[args.len() - 2] == channel);
}

/// The end-of-NAMES numeric reply.  The elements are the channel and the
/// closing message.
pub struct EndNamesReply(pub String, pub String);

impl View for EndNamesReply {
    type V = (Seq<char>, Seq<char>);

    open spec fn view(&self) -> (Seq<char>, Seq<char>) {
        (self.0@, self.1@)
    }
}

impl Command for EndNamesReply {
    /// The components are extracted in reverse, to tolerate non-standard
    /// extra arguments at the front: the last argument is the message and
    /// the one before it is the channel.
    open spec fn parse_spec(args: Seq<Seq<char>>) -> Option<(Seq<char>, Seq<char>)> {
        if args.len() < 2 {
            None
        } else {
            Some((args[args.len() - 2], args[args.len() - 1]))
        }
    }

    open spec fn name_spec() -> Seq<char> {
        "366"@
    }

    fn name() -> (r: String) {
        String::from_str("366")
    }

    fn parse(arguments: ArgumentIter) -> (r: Option<EndNamesReply>) {
        let mut arguments = arguments;
        if arguments.remaining_len() < 2 {
            return None;
        }
        let message = match arguments.next_back() {
            Some(x) => x,
            None => return None,
        };
        let channel = match arguments.next_back() {
            Some(x) => x,
            None => return None,
        };
        Some(EndNamesReply(channel, message))
    }
}

} // verus!
