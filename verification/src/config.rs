use vstd::prelude::*;

verus! {

/// Startup configuration: the gateway credential and the guilds the bot
/// serves. Reading and writing the on-disk form is the caller's concern;
/// this type only carries the values.
#[derive(Debug)]
pub struct ConfigFile {
    pub discord_token: String,
    pub guilds: Vec<i64>,
}

/// Failure while loading or storing the configuration.
#[derive(Debug)]
pub struct ConfigFileError;

impl ConfigFileError {
    /// Human-readable description of the failure.
    pub fn message(&self) -> (r: String)
        ensures
            r@ == "Error validating inner values"@,
    {
        String::from_str("Error validating inner values")
    }
}

impl ConfigFile {
    pub fn new(token: String, guilds: Vec<i64>) -> (r: Self)
        ensures
            r.discord_token == token,
            r.guilds == guilds,
    {
        Self { discord_token: token, guilds }
    }
}

} // verus!
