//! Routing of what the gateway reports.
//!
//! The dispatcher keeps nothing between events: where an event goes depends
//! on the event alone.

use crate::commands::{parse, parsed, Command, Invocation};
use crate::notice::Notice;
use vstd::prelude::*;

verus! {

/// Something that the gateway reports.
#[derive(Clone, Debug, PartialEq, Eq)]
pub enum Event {
    /// The connection stands; `bot_name` is the name the bot goes by.
    Ready { bot_name: String },
    /// Somebody wrote a message.
    MessageReceived { author: u64, author_is_bot: bool, content: String },
    /// Somebody joined a guild.
    MemberJoined { guild: u64, member: u64 },
}

/// Where an event goes.
#[derive(Clone, Copy, Debug, PartialEq, Eq, Structural)]
pub enum Route {
    /// Readiness is logged; nothing else happens.
    LogReady,
    /// The event ends here: it came from a bot.
    Ignore,
    /// The command responder answers `user`.
    Respond { command: Command, user: u64 },
    /// The progression engine counts an activity of `user`.
    CountActivity { user: u64 },
    /// The membership greeter welcomes the new member of `guild`.
    Greet { guild: u64, member: u64 },
}

/// What [`dispatch`] returns.
///
/// A message of a bot goes nowhere, so that two bots cannot set each other
/// off. A message of a user goes to the command responder where it invokes a
/// command, and is an activity of its author everywhere else: a message that
/// starts with the prefix but names no command is no command, and counts.
pub open spec fn route_of(event: Event) -> Route {
    match event {
        Event::Ready { .. } => Route::LogReady,
        Event::MemberJoined { guild, member } => Route::Greet { guild, member },
        Event::MessageReceived { author, author_is_bot, content } => if author_is_bot {
            Route::Ignore
        } else {
            match parsed(content@) {
                Invocation::Known(command) => Route::Respond { command, user: author },
                Invocation::Unknown => Route::CountActivity { user: author },
                Invocation::Plain => Route::CountActivity { user: author },
            }
        },
    }
}

/// The log entry for a connection that stands.
pub open spec fn ready_wording(bot_name: Seq<char>) -> Seq<char> {
    bot_name + " is connected!"@
}

/// What [`after_delivery`] returns.
pub open spec fn delivery_of(delivered: bool) -> Result<(), Notice> {
    if delivered {
        Ok(())
    } else {
        Err(Notice::DeliveryFailed)
    }
}

/// Decides where an event goes.
pub fn dispatch(event: &Event) -> (route: Route)
    ensures
        route == route_of(*event),
{
    match event {
        Event::Ready { .. } => Route::LogReady,
        Event::MemberJoined { guild, member } => Route::Greet { guild: *guild, member: *member },
        Event::MessageReceived { author, author_is_bot, content } => {
            if *author_is_bot {
                Route::Ignore
            } else {
                match parse(content.as_str()) {
                    Invocation::Known(command) => Route::Respond { command, user: *author },
                    Invocation::Unknown => Route::CountActivity { user: *author },
                    Invocation::Plain => Route::CountActivity { user: *author },
                }
            }
        },
    }
}

/// The log entry for a connection that stands.
pub fn ready_text(bot_name: &str) -> (text: String)
    ensures
        text@ == ready_wording(bot_name@),
{
    let mut text = String::from_str(bot_name);
    text.append(" is connected!");
    text
}

/// Decides what a send that has returned means for the event at hand.
///
/// The event is handled either way and the send is not tried again; a send
/// that failed is reported, never passed over.
pub fn after_delivery(delivered: bool) -> (handled: Result<(), Notice>)
    ensures
        handled == delivery_of(delivered),
{
    if delivered {
        Ok(())
    } else {
        Err(Notice::DeliveryFailed)
    }
}

/// A message of a bot never reaches a handler, whatever it says.
pub proof fn law_bots_are_ignored(author: u64, content: String)
    ensures
        route_of(Event::MessageReceived { author, author_is_bot: true, content }) == Route::Ignore,
{
}

/// A message of a user is counted as an activity exactly where it invokes no
/// command, and answered exactly where it invokes one. It is never dropped:
/// a prefix followed by a name that is no command earns its point like any
/// other message.
pub proof fn law_activity_is_every_message_but_a_command(author: u64, content: String)
    ensures
        route_of(Event::MessageReceived { author, author_is_bot: false, content })
            == (Route::CountActivity { user: author }) <==> !(parsed(content@) is Known),
        parsed(content@) matches Invocation::Known(command) ==> route_of(
            Event::MessageReceived { author, author_is_bot: false, content },
        ) == (Route::Respond { command, user: author }),
        route_of(Event::MessageReceived { author, author_is_bot: false, content })
            != Route::Ignore,
{
}

} // verus!
