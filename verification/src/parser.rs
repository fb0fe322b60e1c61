//! The wire parser: a single left-to-right scan of one protocol line,
//! producing spans for tags, prefix, command and arguments.
//!
//! The grammar, informally:
//! ```text
//! line     := [tags SP] [prefix SP] command [SP params]
//! tags     := "@" tag *(";" tag)
//! tag      := key ["=" value]
//! prefix   := ":" name ["!" user] ["@" host]
//! params   := *(SP middle) [SP ":" trailing]
//! ```
//! The spec functions below form a functional model of that scan; the
//! executable functions are proved to return exactly what the model says.

use vstd::prelude::*;

use crate::error::{message_too_long_text, tags_too_long_text, Error};
use crate::message::{prefix_ok, tag_ok, Message, MessageShape, PrefixRange, TagRange};
use crate::span::{span_at, span_ok, span_text, Span};
use crate::text::{chars_of, lemma_scan_end, scan, scan_end, stop_set, StopKind};
use vstd::utf8::encode_utf8;

verus! {

/// The tags block, from the start of the line through the space after it,
/// must not exceed this many bytes.
pub const TAGS_SIZE_LIMIT: usize = 512;

/// Everything after the tags block must not exceed this many bytes.
pub const REST_SIZE_LIMIT: usize = 510;

/// The length in bytes of the characters `s[from..to]`, as the platform
/// counts it: the length of their encoding.
pub open spec fn byte_len(s: Seq<char>, from: int, to: int) -> usize
    recommends
        0 <= from <= to <= s.len(),
{
    encode_utf8(s.subrange(from, to)).len() as usize
}

/// What parsing one line yields: a span structure, or one of the three
/// ways a line is rejected.
pub enum ParseOut {
    Parsed(MessageShape),
    EndOfInput,
    TagsTooLong,
    MessageTooLong,
}

/// Scans the tags from position `pos` (just past `@` or `;`): a key up to
/// `=`, `;` or space; after `=`, a value up to `;` or space.  `;` starts
/// the next tag; a space ends the block.  Running past the end of the
/// line yields `None`.  On success: the tags scanned from `pos` on, and
/// the position just past the terminating space.
pub open spec fn spec_tags_from(s: Seq<char>, pos: int) -> Option<(Seq<TagRange>, int)>
    decreases s.len() - pos,
{
    if pos < 0 || pos > s.len() {
        None
    } else {
        let ke = scan_end(s, pos, stop_set(StopKind::TagKey));
        proof {
            lemma_scan_end(s, pos, stop_set(StopKind::TagKey));
        }
        if ke >= s.len() {
            None
        } else if s[ke] == '=' {
            let ve = scan_end(s, ke + 1, stop_set(StopKind::TagValue));
            proof {
                lemma_scan_end(s, ke + 1, stop_set(StopKind::TagValue));
            }
            if ve >= s.len() {
                None
            } else {
                let tag = (span_at(pos, ke), Some(span_at(ke + 1, ve)));
                if s[ve] == ' ' {
                    Some((seq![tag], ve + 1))
                } else {
                    match spec_tags_from(s, ve + 1) {
                        None => None,
                        Some((rest, end)) => Some((seq![tag] + rest, end)),
                    }
                }
            }
        } else {
            let tag = (span_at(pos, ke), None::<Span>);
            if s[ke] == ' ' {
                Some((seq![tag], ke + 1))
            } else {
                match spec_tags_from(s, ke + 1) {
                    None => None,
                    Some((rest, end)) => Some((seq![tag] + rest, end)),
                }
            }
        }
    }
}

/// The tags step on a whole line: an empty line is rejected; a line that
/// does not begin with `@` has no tags and is not consumed at all.
pub open spec fn spec_tags(s: Seq<char>) -> Option<(Option<Seq<TagRange>>, int)> {
    if s.len() == 0 {
        None
    } else if s[0] == '@' {
        match spec_tags_from(s, 1) {
            None => None,
            Some((tags, end)) => Some((Some(tags), end)),
        }
    } else {
        Some((None, 0))
    }
}

/// The prefix step from position `pos`: a line already exhausted is
/// rejected; without a leading `:` nothing is consumed.  The name runs to
/// space, `!` or `@`; after `!` the user runs to space or `@`; after `@`
/// the host runs to space; the terminating space is consumed.
pub open spec fn spec_prefix(s: Seq<char>, pos: int) -> Option<(Option<PrefixRange>, int)>
    recommends
        0 <= pos,
{
    if pos >= s.len() {
        None
    } else if s[pos] != ':' {
        Some((None, pos))
    } else {
        let ns = pos + 1;
        let ne = scan_end(s, ns, stop_set(StopKind::PrefixName));
        if ne >= s.len() {
            None
        } else {
            let upos = if s[ne] == '!' {
                scan_end(s, ne + 1, stop_set(StopKind::PrefixUser))
            } else {
                ne
            };
            let user = if s[ne] == '!' {
                Some(span_at(ne + 1, upos))
            } else {
                None::<Span>
            };
            if upos >= s.len() {
                None
            } else {
                let hpos = if s[upos] == '@' {
                    scan_end(s, upos + 1, stop_set(StopKind::SpaceOnly))
                } else {
                    upos
                };
                let host = if s[upos] == '@' {
                    Some(span_at(upos + 1, hpos))
                } else {
                    None::<Span>
                };
                if hpos >= s.len() {
                    None
                } else {
                    let p = PrefixRange {
                        raw_prefix: span_at(ns, hpos),
                        prefix: span_at(ns, ne),
                        user,
                        host,
                    };
                    Some((Some(p), hpos + 1))
                }
            }
        }
    }
}

/// The command step from position `pos`: the token up to the next space
/// or the end of the line.  The token is required: an exhausted line or
/// an empty token is rejected, and so is a separating space that nothing
/// follows.
pub open spec fn spec_command(s: Seq<char>, pos: int) -> Option<(Span, int)>
    recommends
        0 <= pos,
{
    if pos >= s.len() {
        None
    } else {
        let ce = scan_end(s, pos, stop_set(StopKind::SpaceOnly));
        if ce == pos {
            None
        } else if ce >= s.len() {
            Some((span_at(pos, ce), ce))
        } else if ce + 1 >= s.len() {
            None
        } else {
            Some((span_at(pos, ce), ce + 1))
        }
    }
}

/// The argument spans from position `pos`.  A token beginning with `:`
/// drops that `:` and turns the whole remainder of the line, embedded
/// spaces included, into the single final argument; other tokens run to
/// the next space.  A separator that nothing follows yields a final empty
/// argument.
pub open spec fn spec_args_from(s: Seq<char>, pos: int) -> Seq<Span>
    decreases s.len() - pos,
{
    if pos < 0 {
        Seq::empty()
    } else if pos >= s.len() {
        seq![span_at(pos, pos)]
    } else if s[pos] == ':' {
        seq![span_at(pos + 1, s.len() as int)]
    } else {
        let e = scan_end(s, pos, stop_set(StopKind::SpaceOnly));
        proof {
            lemma_scan_end(s, pos, stop_set(StopKind::SpaceOnly));
        }
        if e >= s.len() {
            seq![span_at(pos, e)]
        } else {
            seq![span_at(pos, e)] + spec_args_from(s, e + 1)
        }
    }
}

/// The whole scan of one line, with the two size checks: the tags block
/// is checked as soon as it is consumed, and the rest of the line is
/// checked once the line has otherwise parsed.
pub open spec fn spec_parse(s: Seq<char>) -> ParseOut {
    match spec_tags(s) {
        None => ParseOut::EndOfInput,
        Some((tags, te)) => {
            if byte_len(s, 0, te) > TAGS_SIZE_LIMIT {
                ParseOut::TagsTooLong
            } else {
                match spec_prefix(s, te) {
                    None => ParseOut::EndOfInput,
                    Some((prefix, pp)) => {
                        match spec_command(s, pp) {
                            None => ParseOut::EndOfInput,
                            Some((command, pa)) => {
                                if byte_len(s, te, s.len() as int) > REST_SIZE_LIMIT {
                                    ParseOut::MessageTooLong
                                } else {
                                    let arguments = if pa >= s.len() {
                                        None
                                    } else {
                                        Some(spec_args_from(s, pa))
                                    };
                                    ParseOut::Parsed(
                                        MessageShape { tags, prefix, command, arguments },
                                    )
                                }
                            },
                        }
                    },
                }
            }
        },
    }
}

/// Round-trip: the scan is a function of the text alone, so two
/// messages the parser accepted for the same text — in particular a
/// message a constructor helper built, and the message obtained by
/// re-parsing its raw text — carry identical command and argument spans,
/// and identical tag and prefix spans.
pub proof fn lemma_round_trip(s: Seq<char>, m1: Message, m2: Message)
    requires
        parse_result_matches(s, Ok(m1)),
        parse_result_matches(s, Ok(m2)),
    ensures
        m1.command == m2.command,
        m1.shape().arguments == m2.shape().arguments,
        m1.shape() == m2.shape(),
        m1.message@ == m2.message@,
{
}

/// Totality of the optional blocks: a line with neither a tags block nor
/// a prefix block parses, provided a command token is present — that is,
/// the line is nonempty, begins with none of `@`, `:` or a space, fits
/// the size limit, and a space after the command token is not the
/// line's last character.
pub proof fn lemma_optional_blocks(s: Seq<char>)
    requires
        0 < s.len(),
        byte_len(s, 0, s.len() as int) <= REST_SIZE_LIMIT,
        s[0] != '@',
        s[0] != ':',
        s[0] != ' ',
        scan_end(s, 0, stop_set(StopKind::SpaceOnly)) != s.len() - 1,
    ensures
        spec_parse(s) matches ParseOut::Parsed(shape) && shape.tags is None && shape.prefix
            is None,
{
    lemma_scan_end(s, 0, stop_set(StopKind::SpaceOnly));
}

/// A line that does not begin with `@` has no tags block, and that
/// absence is never by itself a parse failure: the tags step consumes
/// nothing and succeeds.
pub proof fn lemma_tags_optional(s: Seq<char>)
    requires
        s.len() > 0,
        s[0] != '@',
    ensures
        spec_tags(s) == Some((None::<Seq<TagRange>>, 0int)),
{
}

/// A position that does not hold `:` starts no prefix block, and that
/// absence is never by itself a parse failure: the prefix step consumes
/// nothing and succeeds.
pub proof fn lemma_prefix_optional(s: Seq<char>, pos: int)
    requires
        0 <= pos < s.len(),
        s[pos] != ':',
    ensures
        spec_prefix(s, pos) == Some((None::<PrefixRange>, pos)),
{
}

/// Trailing-argument exactness: an argument introduced by `:` is the
/// final one and is exactly the rest of the line — embedded spaces kept
/// verbatim, and an empty remainder kept as the empty argument.
pub proof fn lemma_trailing_exact(s: Seq<char>, pos: int)
    requires
        0 <= pos < s.len() <= usize::MAX as int,
        s[pos] == ':',
    ensures
        spec_args_from(s, pos) =~= seq![span_at(pos + 1, s.len() as int)],
        span_text(s, spec_args_from(s, pos)[0]) == s.subrange(pos + 1, s.len() as int),
{
}

/// The loop invariant of the tags scan: the tags still to be scanned
/// from `pos`, appended to those in `acc`, are the tags of the whole
/// block, and both scans agree on failure and on the end position.
spec fn tags_inv(s: Seq<char>, acc: Seq<TagRange>, pos: int) -> bool {
    match spec_tags_from(s, pos) {
        None => spec_tags_from(s, 1) is None,
        Some(p) => spec_tags_from(s, 1) == Some((acc + p.0, p.1)),
    }
}

/// Scans the tags block of `cs`, if any: exactly what `spec_tags` says,
/// with every produced span inside the line.
fn parse_tags(cs: &Vec<char>) -> (r: Result<(Option<Vec<TagRange>>, usize), Error>)
    ensures
        match spec_tags(cs@) {
            None => r matches Err(Error::UnexpectedEndOfInput),
            Some(sp) => r matches Ok(p) && p.1 as int == sp.1 && p.1 <= cs.len() && (match (
                p.0,
                sp.0,
            ) {
                (Some(v), Some(ts)) => v@ == ts && forall|i: int|
                    0 <= i < v@.len() ==> tag_ok(#[trigger] v@[i], cs@.len()),
                (None, None) => true,
                _ => false,
            }),
        },
{
    if cs.len() == 0 {
        return Err(Error::UnexpectedEndOfInput);
    }
    if cs[0] != '@' {
        return Ok((None, 0));
    }
    let mut tags: Vec<TagRange> = Vec::new();
    let mut pos: usize = 1;
    loop
        invariant
            1 <= pos <= cs.len(),
            cs@.len() > 0,
            cs@[0] == '@',
            tags_inv(cs@, tags@, pos as int),
            forall|i: int| 0 <= i < tags@.len() ==> tag_ok(#[trigger] tags@[i], cs@.len()),
        decreases cs.len() - pos,
    {
        let ke = scan(cs, pos, StopKind::TagKey);
        if ke >= cs.len() {
            return Err(Error::UnexpectedEndOfInput);
        }
        let key = Span { start: pos, end: ke };
        if cs[ke] == '=' {
            let ve = scan(cs, ke + 1, StopKind::TagValue);
            if ve >= cs.len() {
                return Err(Error::UnexpectedEndOfInput);
            }
            let tag = (key, Some(Span { start: ke + 1, end: ve }));
            let ghost prev = tags@;
            tags.push(tag);
            if cs[ve] == ' ' {
                proof {
                    assert(spec_tags_from(cs@, pos as int) == Some((seq![tag], ve + 1 as int)));
                    assert(prev + seq![tag] =~= tags@);
                }
                return Ok((Some(tags), ve + 1));
            }
            proof {
                if spec_tags_from(cs@, ve + 1 as int) is Some {
                    let p = spec_tags_from(cs@, ve + 1 as int)->Some_0;
                    assert(prev + (seq![tag] + p.0) =~= tags@ + p.0);
                }
            }
            pos = ve + 1;
        } else {
            let tag = (key, None);
            let ghost prev = tags@;
            tags.push(tag);
            if cs[ke] == ' ' {
                proof {
                    assert(spec_tags_from(cs@, pos as int) == Some((seq![tag], ke + 1 as int)));
                    assert(prev + seq![tag] =~= tags@);
                }
                return Ok((Some(tags), ke + 1));
            }
            proof {
                if spec_tags_from(cs@, ke + 1 as int) is Some {
                    let p = spec_tags_from(cs@, ke + 1 as int)->Some_0;
                    assert(prev + (seq![tag] + p.0) =~= tags@ + p.0);
                }
            }
            pos = ke + 1;
        }
    }
}

/// Scans the prefix block of `cs` at `pos`, if any: exactly what
/// `spec_prefix` says, with every produced span inside the line.
fn parse_prefix(cs: &Vec<char>, pos: usize) -> (r: Result<(Option<PrefixRange>, usize), Error>)
    requires
        pos <= cs.len(),
    ensures
        match spec_prefix(cs@, pos as int) {
            None => r matches Err(Error::UnexpectedEndOfInput),
            Some(sp) => r matches Ok(p) && p.0 == sp.0 && p.1 as int == sp.1 && p.1 <= cs.len()
                && (p.0 matches Some(pr) ==> prefix_ok(pr, cs@.len())),
        },
{
    if pos >= cs.len() {
        return Err(Error::UnexpectedEndOfInput);
    }
    if cs[pos] != ':' {
        return Ok((None, pos));
    }
    let ns = pos + 1;
    let ne = scan(cs, ns, StopKind::PrefixName);
    if ne >= cs.len() {
        return Err(Error::UnexpectedEndOfInput);
    }
    let mut user: Option<Span> = None;
    let mut p1 = ne;
    if cs[ne] == '!' {
        let ue = scan(cs, ne + 1, StopKind::PrefixUser);
        user = Some(Span { start: ne + 1, end: ue });
        p1 = ue;
    }
    if p1 >= cs.len() {
        return Err(Error::UnexpectedEndOfInput);
    }
    let mut host: Option<Span> = None;
    let mut p2 = p1;
    if cs[p1] == '@' {
        let he = scan(cs, p1 + 1, StopKind::SpaceOnly);
        host = Some(Span { start: p1 + 1, end: he });
        p2 = he;
    }
    if p2 >= cs.len() {
        return Err(Error::UnexpectedEndOfInput);
    }
    let pr = PrefixRange { raw_prefix: Span { start: ns, end: p2 }, prefix: Span {
        start: ns,
        end: ne,
    }, user, host };
    Ok((Some(pr), p2 + 1))
}

/// Scans the command token of `cs` at `pos`: exactly what `spec_command`
/// says, with the span inside the line.
fn parse_command(cs: &Vec<char>, pos: usize) -> (r: Result<(Span, usize), Error>)
    requires
        pos <= cs.len(),
    ensures
        match spec_command(cs@, pos as int) {
            None => r matches Err(Error::UnexpectedEndOfInput),
            Some(sp) => r matches Ok(p) && p.0 == sp.0 && p.1 as int == sp.1 && p.1 <= cs.len()
                && span_ok(p.0, cs@.len()),
        },
{
    if pos >= cs.len() {
        return Err(Error::UnexpectedEndOfInput);
    }
    let ce = scan(cs, pos, StopKind::SpaceOnly);
    if ce == pos {
        return Err(Error::UnexpectedEndOfInput);
    }
    let cmd = Span { start: pos, end: ce };
    if ce >= cs.len() {
        Ok((cmd, ce))
    } else if ce + 1 >= cs.len() {
        Err(Error::UnexpectedEndOfInput)
    } else {
        Ok((cmd, ce + 1))
    }
}

/// Scans the arguments of `cs` from `pos` on: exactly what the model
/// says, with every produced span inside the line.
fn parse_args(cs: &Vec<char>, pos: usize) -> (r: Option<Vec<Span>>)
    requires
        pos <= cs.len(),
    ensures
        pos >= cs.len() ==> r is None,
        pos < cs.len() ==> (r matches Some(v) && v@ == spec_args_from(cs@, pos as int) && (forall|
            i: int,
        | 0 <= i < v@.len() ==> span_ok(#[trigger] v@[i], cs@.len()))),
{
    if pos >= cs.len() {
        return None;
    }
    let mut v: Vec<Span> = Vec::new();
    let mut p: usize = pos;
    loop
        invariant
            pos < cs.len(),
            pos <= p <= cs.len(),
            spec_args_from(cs@, pos as int) == v@ + spec_args_from(cs@, p as int),
            forall|i: int| 0 <= i < v@.len() ==> span_ok(#[trigger] v@[i], cs@.len()),
        decreases cs.len() + 1 - p,
    {
        let ghost prev = v@;
        if p >= cs.len() {
            let sp = Span { start: p, end: p };
            v.push(sp);
            proof {
                assert(prev + seq![sp] =~= v@);
                assert(prev + (seq![sp] + Seq::<Span>::empty()) =~= prev + seq![sp]);
                assert(spec_args_from(cs@, p as int) == seq![sp]);
            }
            return Some(v);
        }
        if cs[p] == ':' {
            let sp = Span { start: p + 1, end: cs.len() };
            v.push(sp);
            proof {
                assert(prev + seq![sp] =~= v@);
                assert(spec_args_from(cs@, p as int) == seq![sp]);
            }
            return Some(v);
        }
        let e = scan(cs, p, StopKind::SpaceOnly);
        let sp = Span { start: p, end: e };
        v.push(sp);
        proof {
            assert(prev + seq![sp] =~= v@);
        }
        if e >= cs.len() {
            proof {
                assert(spec_args_from(cs@, p as int) == seq![sp]);
            }
            return Some(v);
        }
        proof {
            assert(spec_args_from(cs@, p as int) == seq![sp] + spec_args_from(cs@, e + 1 as int));
            assert(prev + (seq![sp] + spec_args_from(cs@, e + 1 as int)) =~= v@ + spec_args_from(
                cs@,
                e + 1 as int,
            ));
        }
        p = e + 1;
    }
}

/// Parses one complete protocol line, without its terminator, into a
/// `Message`: the spans are exactly those of the parsing model, and on
/// any rejection the matching error is returned and no partial message.
pub fn parse_message(message: String) -> (r: Result<Message, Error>)
    ensures
        parse_result_matches(message@, r),
{
    let cs = chars_of(message.as_str());
    let n = cs.len();
    let (tags, te) = match parse_tags(&cs) {
        Err(e) => return Err(e),
        Ok(p) => p,
    };
    if message.as_str().substring_char(0, te).len() > TAGS_SIZE_LIMIT {
        return Err(Error::InputTooLong(String::from_str("The tags length exceeded 512 bytes.")));
    }
    let (prefix, pp) = match parse_prefix(&cs, te) {
        Err(e) => return Err(e),
        Ok(p) => p,
    };
    let (command, pa) = match parse_command(&cs, pp) {
        Err(e) => return Err(e),
        Ok(p) => p,
    };
    if message.as_str().substring_char(te, n).len() > REST_SIZE_LIMIT {
        return Err(
            Error::InputTooLong(String::from_str("The message length exceeded 512 bytes.")),
        );
    }
    let arguments = parse_args(&cs, pa);
    Ok(Message { message, tags, prefix, command, arguments })
}

/// What a parse attempt on the text `s` must return: on the model's
/// success, a message owning exactly `s` with exactly the model's spans;
/// on each rejection, the matching error.
pub open spec fn parse_result_matches(s: Seq<char>, r: Result<Message, Error>) -> bool {
    match spec_parse(s) {
        ParseOut::Parsed(shape) => match r {
            Ok(m) => m.message@ == s && m.shape() == shape && m.wf(),
            Err(_) => false,
        },
        ParseOut::EndOfInput => r matches Err(Error::UnexpectedEndOfInput),
        ParseOut::TagsTooLong => r matches Err(Error::InputTooLong(reason)) && reason@
            == tags_too_long_text(),
        ParseOut::MessageTooLong => r matches Err(Error::InputTooLong(reason)) && reason@
            == message_too_long_text(),
    }
}

} // verus!
