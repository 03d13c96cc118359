//! What can go wrong when a message is handed to the node.

use crate::text::{decimal, decimal_text};
use vstd::prelude::*;
use vstd::string::*;

verus! {

/// Why a message was not taken.
#[derive(Debug, Clone, Copy, PartialEq, Eq, Structural)]
pub enum SplashError {
    /// The message is longer than the limit, which is given in bytes.
    MessageTooLarge(usize),
    /// The message is not in the expected format. No rule produces this yet.
    InvalidMessageFormat,
    /// The node's submission queue is gone.
    SendError,
}

impl SplashError {
    /// The text that describes the error.
    pub open spec fn text(self) -> Seq<char> {
        match self {
            SplashError::MessageTooLarge(limit) => "Message exceeds maximum size of "@ + decimal(
                limit as nat,
            ) + " bytes"@,
            SplashError::InvalidMessageFormat => "Invalid message format: not a valid bech32 string"@,
            SplashError::SendError => "Failed to send message to network"@,
        }
    }

    /// Describes the error in words.
    pub fn to_string(&self) -> (s: String)
        ensures
            s@ == self.text(),
    {
        match self {
            SplashError::MessageTooLarge(limit) => {
                let mut s = String::from_str("Message exceeds maximum size of ");
                let number = decimal_text(*limit as u64);
                s.append(number.as_str());
                s.append(" bytes");
                s
            },
            SplashError::InvalidMessageFormat => String::from_str(
                "Invalid message format: not a valid bech32 string",
            ),
            SplashError::SendError => String::from_str("Failed to send message to network"),
        }
    }
}

} // verus!
