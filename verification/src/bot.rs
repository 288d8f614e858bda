use vstd::prelude::*;

verus! {

/// Failure while starting the bot process.
#[derive(Debug)]
pub struct BotStartError;

impl BotStartError {
    /// Human-readable description of the failure.
    pub fn message(&self) -> (r: String)
        ensures
            r@ == "Failed to start Discord bot"@,
    {
        String::from_str("Failed to start Discord bot")
    }
}

} // verus!
