//! Welcoming a new member of a guild.
//!
//! The caller looks up the guild's welcome configuration and asks
//! [`welcome_for`] whether there is anything to do; if so it tries to resolve
//! the configured channel and asks [`greet`] what to send.

use crate::notice::Notice;
use crate::store::Fetched;
use vstd::prelude::*;

verus! {

/// Where and how a guild welcomes its new members.
#[derive(Clone, Debug, PartialEq, Eq)]
pub struct WelcomeConfig {
    pub guild: u64,
    pub channel: u64,
    pub message: String,
}

/// One message for one channel.
#[derive(Clone, Debug, PartialEq, Eq)]
pub struct Greeting {
    pub channel: u64,
    pub text: String,
}

/// What [`welcome_for`] returns.
pub open spec fn welcome_of(fetched: Fetched<WelcomeConfig>) -> Result<WelcomeConfig, Notice> {
    match fetched {
        Fetched::Found(config) => Ok(config),
        Fetched::Missing => Err(Notice::NoWelcomeConfigured),
        Fetched::Unavailable => Err(Notice::StoreUnavailable),
    }
}

/// What [`greet`] returns.
pub open spec fn greeting_of(config: WelcomeConfig, channel_resolved: bool) -> Result<
    Greeting,
    Notice,
> {
    if channel_resolved {
        Ok(Greeting { channel: config.channel, text: config.message })
    } else {
        Err(Notice::ChannelUnresolvable)
    }
}

/// What a member's arrival leads to, from the lookup to the message.
/// `channel_resolved` is read only where a configuration was found.
pub open spec fn on_member_join(
    fetched: Fetched<WelcomeConfig>,
    channel_resolved: bool,
) -> Result<Greeting, Notice> {
    match welcome_of(fetched) {
        Ok(config) => greeting_of(config, channel_resolved),
        Err(notice) => Err(notice),
    }
}

/// Decides whether a new member is to be welcomed, given what the store
/// returned for the guild's configuration.
///
/// A guild without a configuration is left alone, with a notice for the log;
/// so is one whose configuration could not be read.
pub fn welcome_for(fetched: Fetched<WelcomeConfig>) -> (welcome: Result<WelcomeConfig, Notice>)
    ensures
        welcome == welcome_of(fetched),
{
    match fetched {
        Fetched::Found(config) => Ok(config),
        Fetched::Missing => Err(Notice::NoWelcomeConfigured),
        Fetched::Unavailable => Err(Notice::StoreUnavailable),
    }
}

/// Decides what to send for a configured welcome, given whether the
/// configured channel could be resolved.
///
/// A resolved channel gets the configured text, unchanged. An unresolved one
/// gets nothing, and the log gets a notice.
pub fn greet(config: WelcomeConfig, channel_resolved: bool) -> (greeting: Result<Greeting, Notice>)
    ensures
        greeting == greeting_of(config, channel_resolved),
{
    if channel_resolved {
        Ok(Greeting { channel: config.channel, text: config.message })
    } else {
        Err(Notice::ChannelUnresolvable)
    }
}

/// A member's arrival leads to one message or to one notice, never to both
/// and never to more. The message goes out exactly where the guild has a
/// configuration whose channel resolves, to that channel and with that text;
/// a guild without a configuration gets no message and the log one entry.
pub proof fn law_one_greeting_or_one_notice(
    fetched: Fetched<WelcomeConfig>,
    channel_resolved: bool,
)
    ensures
        on_member_join(fetched, channel_resolved) is Ok <==> fetched is Found && channel_resolved,
        fetched is Found && channel_resolved ==> on_member_join(fetched, channel_resolved) == Ok::<
            Greeting,
            Notice,
        >(Greeting { channel: fetched->Found_0.channel, text: fetched->Found_0.message }),
        fetched is Found && !channel_resolved ==> on_member_join(fetched, channel_resolved)
            == Err::<Greeting, Notice>(Notice::ChannelUnresolvable),
        fetched is Missing ==> on_member_join(fetched, channel_resolved) == Err::<
            Greeting,
            Notice,
        >(Notice::NoWelcomeConfigured),
        fetched is Unavailable ==> on_member_join(fetched, channel_resolved) == Err::<
            Greeting,
            Notice,
        >(Notice::StoreUnavailable),
{
}

} // verus!
