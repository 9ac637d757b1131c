//! The text commands: how a message invokes one, and what each answers.
//!
//! White space at the start of a message does not count. What remains
//! addresses the bot when it starts with [`PREFIX`]. The command's name
//! follows at once and runs to the next white space or to the end of the
//! message; what comes after it is ignored. Names are matched exactly.
//!
//! Only a message that invokes one of the commands is a command. One that
//! starts with the prefix and goes on with anything else is read as
//! [`Invocation::Unknown`]: nothing answers it, and to the rest of the bot it
//! is a message like any other.

use crate::notice::Notice;
use crate::progress::UserProgress;
use crate::reply::Reply;
use crate::store::Fetched;
use vstd::prelude::*;

verus! {

/// The character that opens a command.
pub const PREFIX: char = '~';

/// A command that the bot knows.
#[derive(Clone, Copy, Debug, PartialEq, Eq, Structural)]
pub enum Command {
    /// Asks for a sign of life.
    Ping,
    /// Asks for the sender's level.
    Check,
}

/// What a message is, as far as commands go.
#[derive(Clone, Copy, Debug, PartialEq, Eq, Structural)]
pub enum Invocation {
    /// The message does not address the bot.
    Plain,
    /// The message starts with the prefix, and what follows names no
    /// command: it is no command.
    Unknown,
    /// The message invokes a command.
    Known(Command),
}

/// Whether `c` ends a command's name: whether it is white space, in any
/// script. These are the tab, the line and page breaks from U+0009 to U+000D,
/// the space, the next-line control, the no-break spaces, the Ogham space
/// mark, the spaces of fixed width from U+2000 to U+200A, the line and
/// paragraph separators, the mathematical space and the ideographic space.
pub open spec fn is_separator(c: char) -> bool {
    ||| '\u{9}' <= c <= '\u{d}'
    ||| c == ' '
    ||| c == '\u{85}'
    ||| c == '\u{a0}'
    ||| c == '\u{1680}'
    ||| '\u{2000}' <= c <= '\u{200a}'
    ||| c == '\u{2028}'
    ||| c == '\u{2029}'
    ||| c == '\u{202f}'
    ||| c == '\u{205f}'
    ||| c == '\u{3000}'
}

/// The number of separators that `content` starts with.
pub open spec fn lead(content: Seq<char>) -> nat
    decreases content.len(),
{
    if content.len() > 0 && is_separator(content[0]) {
        1 + lead(content.skip(1))
    } else {
        0
    }
}

/// `content` without the separators that it starts with.
pub open spec fn body(content: Seq<char>) -> Seq<char> {
    content.skip(lead(content) as int)
}

/// Whether `body` starts with the prefix.
pub open spec fn addresses_bot(body: Seq<char>) -> bool {
    body.len() >= 1 && body[0] == PREFIX
}

/// Whether `body` is the prefix, then `name`, then nothing or a separator
/// and whatever follows it.
pub open spec fn invokes(body: Seq<char>, name: Seq<char>) -> bool {
    let end = 1 + name.len() as int;
    &&& addresses_bot(body)
    &&& body.len() >= end
    &&& body.subrange(1, end) == name
    &&& (body.len() == end || is_separator(body[end]))
}

impl Command {
    /// The name by which the command is invoked.
    pub open spec fn name(self) -> Seq<char> {
        match self {
            Command::Ping => "ping"@,
            Command::Check => "check"@,
        }
    }
}

/// What [`parse`] returns.
pub open spec fn parsed(content: Seq<char>) -> Invocation {
    if !addresses_bot(body(content)) {
        Invocation::Plain
    } else if invokes(body(content), Command::Ping.name()) {
        Invocation::Known(Command::Ping)
    } else if invokes(body(content), Command::Check.name()) {
        Invocation::Known(Command::Check)
    } else {
        Invocation::Unknown
    }
}

/// Whether `c` ends a command's name.
pub fn ends_name(c: char) -> (yes: bool)
    ensures
        yes == is_separator(c),
{
    ('\u{9}' <= c && c <= '\u{d}') || c == ' ' || c == '\u{85}' || c == '\u{a0}' || c
        == '\u{1680}' || ('\u{2000}' <= c && c <= '\u{200a}') || c == '\u{2028}' || c
        == '\u{2029}' || c == '\u{202f}' || c == '\u{205f}' || c == '\u{3000}'
}

/// The number of separators that a message of `len` characters starts with.
fn skip_lead(content: &str, len: usize) -> (start: usize)
    requires
        len == content@.len(),
    ensures
        start == lead(content@),
        start <= len,
{
    let mut start: usize = 0;
    proof {
        assert(content@.skip(0) =~= content@);
    }
    while start < len && ends_name(content.get_char(start))
        invariant
            start <= len,
            len == content@.len(),
            lead(content@) == start + lead(content@.skip(start as int)),
        decreases len - start,
    {
        proof {
            let rest = content@.skip(start as int);
            assert(rest[0] == content@[start as int]);
            assert(rest.skip(1) =~= content@.skip(start + 1));
        }
        start += 1;
    }
    proof {
        let rest = content@.skip(start as int);
        if start < len {
            assert(rest[0] == content@[start as int]);
        }
    }
    start
}

/// Whether a message whose body starts at `start` with the prefix invokes
/// the command called `name`.
fn invokes_name(content: &str, len: usize, start: usize, name: &str) -> (yes: bool)
    requires
        len == content@.len(),
        start < len,
        addresses_bot(content@.skip(start as int)),
    ensures
        yes == invokes(content@.skip(start as int), name@),
{
    let ghost body = content@.skip(start as int);
    let n = name.unicode_len();
    if len - start - 1 < n {
        return false;
    }
    let mut i: usize = 0;
    while i < n
        invariant
            i <= n,
            n == name@.len(),
            len == content@.len(),
            start + 1 + n <= len,
            body == content@.skip(start as int),
            body.subrange(1, 1 + i) == name@.subrange(0, i as int),
        decreases n - i,
    {
        if content.get_char(start + 1 + i) != name.get_char(i) {
            proof {
                let whole = body.subrange(1, 1 + n);
                assert(whole[i as int] == content@[start + 1 + i]);
            }
            return false;
        }
        proof {
            assert(body.subrange(1, 1 + (i + 1)) =~= body.subrange(1, 1 + i).push(
                content@[start + 1 + i],
            ));
            assert(name@.subrange(0, i + 1) =~= name@.subrange(0, i as int).push(name@[i as int]));
        }
        i += 1;
    }
    proof {
        assert(name@.subrange(0, n as int) =~= name@);
        if start + 1 + n < len {
            assert(body[1 + n] == content@[start + 1 + n]);
        }
    }
    len == start + 1 + n || ends_name(content.get_char(start + 1 + n))
}

/// Reads a message as a command invocation.
pub fn parse(content: &str) -> (invocation: Invocation)
    ensures
        invocation == parsed(content@),
{
    let len = content.unicode_len();
    let start = skip_lead(content, len);
    proof {
        if start < len {
            assert(body(content@)[0] == content@[start as int]);
        }
    }
    if start == len || content.get_char(start) != PREFIX {
        Invocation::Plain
    } else if invokes_name(content, len, start, "ping") {
        Invocation::Known(Command::Ping)
    } else if invokes_name(content, len, start, "check") {
        Invocation::Known(Command::Check)
    } else {
        Invocation::Unknown
    }
}

/// What [`check`] returns.
pub open spec fn checked(fetched: Fetched<UserProgress>) -> Result<Reply, Notice> {
    match fetched {
        Fetched::Found(record) => Ok(Reply::Level { level: record.level }),
        Fetched::Missing => Ok(Reply::NoData),
        Fetched::Unavailable => Err(Notice::StoreUnavailable),
    }
}

/// Answers `ping`: always the same acknowledgement, whatever the state.
pub fn ping() -> (reply: Reply)
    ensures
        reply == Reply::Pong,
{
    Reply::Pong
}

/// Answers a balance query, given what the store returned for the sender.
///
/// A sender with a record is told their level, one without is told that
/// there is no data yet. Where the store did not answer, nothing is said to
/// the sender and the log gets a notice. Nothing is written in any case.
pub fn check(fetched: Fetched<UserProgress>) -> (answer: Result<Reply, Notice>)
    ensures
        answer == checked(fetched),
        fetched is Missing ==> answer == Ok::<Reply, Notice>(Reply::NoData),
{
    match fetched {
        Fetched::Found(record) => Ok(Reply::Level { level: record.level }),
        Fetched::Missing => Ok(Reply::NoData),
        Fetched::Unavailable => Err(Notice::StoreUnavailable),
    }
}

} // verus!
