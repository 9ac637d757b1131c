//! What the bot says to users.

use crate::text::{around_decimal, decimal};
use vstd::prelude::*;

verus! {

/// A message for the user whose message is being handled.
#[derive(Clone, Copy, Debug, PartialEq, Eq, Structural)]
pub enum Reply {
    /// The acknowledgement of `ping`.
    Pong,
    /// The answer to a balance query of a user with a record.
    Level { level: u64 },
    /// The answer to a balance query of a user without a record.
    NoData,
    /// The announcement that the user has reached `level`.
    LevelUp { level: u64 },
}

impl Reply {
    /// The characters of the message.
    pub open spec fn wording(self) -> Seq<char> {
        match self {
            Reply::Pong => "Pong!"@,
            Reply::Level { level } => "あなたのレベルは"@ + decimal(level as nat) + "です。"@,
            Reply::NoData => "データがありません"@,
            Reply::LevelUp { level } => "あなたはレベル"@ + decimal(level as nat)
                + "になりました。"@,
        }
    }

    /// The message as text, ready to be sent.
    pub fn text(&self) -> (text: String)
        ensures
            text@ == self.wording(),
    {
        match self {
            Reply::Pong => String::from_str("Pong!"),
            Reply::Level { level } => around_decimal("あなたのレベルは", *level, "です。"),
            Reply::NoData => String::from_str("データがありません"),
            Reply::LevelUp { level } => around_decimal("あなたはレベル", *level, "になりました。"),
        }
    }
}

} // verus!
