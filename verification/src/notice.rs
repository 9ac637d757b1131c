//! What the bot tells its operator.
//!
//! Nothing here reaches a user: a notice is an entry for the log, written when
//! an event is handled without the effect it would normally have.

use vstd::prelude::*;

verus! {

/// How a notice is to be logged.
#[derive(Clone, Copy, Debug, PartialEq, Eq, Structural)]
pub enum Severity {
    /// The expected course of things.
    Info,
    /// Something went wrong; the event at hand was dropped, the service goes on.
    Error,
}

/// A condition worth a log entry.
#[derive(Clone, Copy, Debug, PartialEq, Eq, Structural)]
pub enum Notice {
    /// The guild of a new member has no welcome configured.
    NoWelcomeConfigured,
    /// The channel of a welcome configuration cannot be resolved.
    ChannelUnresolvable,
    /// The store did not answer.
    StoreUnavailable,
    /// A message could not be delivered.
    DeliveryFailed,
    /// A user's point counter cannot be incremented.
    PointOverflow,
}

impl Notice {
    /// A guild without a welcome is the steady state of most guilds; every
    /// other notice reports a failure.
    pub open spec fn rank(self) -> Severity {
        if self == Notice::NoWelcomeConfigured {
            Severity::Info
        } else {
            Severity::Error
        }
    }

    /// The characters of the log entry.
    pub open spec fn wording(self) -> Seq<char> {
        match self {
            Notice::NoWelcomeConfigured => "データがないぞい"@,
            Notice::ChannelUnresolvable => "チャンネルが見つかりませんでした。"@,
            Notice::StoreUnavailable => "データベースに接続できませんでした。"@,
            Notice::DeliveryFailed => "メッセージを送信できませんでした。"@,
            Notice::PointOverflow => "ポイントをこれ以上加算できません。"@,
        }
    }

    /// How the notice is to be logged.
    pub fn severity(&self) -> (severity: Severity)
        ensures
            severity == self.rank(),
    {
        match self {
            Notice::NoWelcomeConfigured => Severity::Info,
            _ => Severity::Error,
        }
    }

    /// The log entry as text.
    pub fn text(&self) -> (text: String)
        ensures
            text@ == self.wording(),
    {
        match self {
            Notice::NoWelcomeConfigured => String::from_str("データがないぞい"),
            Notice::ChannelUnresolvable => String::from_str("チャンネルが見つかりませんでした。"),
            Notice::StoreUnavailable => String::from_str("データベースに接続できませんでした。"),
            Notice::DeliveryFailed => String::from_str("メッセージを送信できませんでした。"),
            Notice::PointOverflow => String::from_str("ポイントをこれ以上加算できません。"),
        }
    }
}

} // verus!
