//! The server's configuration.

use crate::catalog::GameCatalog;
use crate::error::PanelError;
use crate::password::{bcrypt_verdict, hash_password, made_at_cost, HASH_COST};
use vstd::prelude::*;

verus! {

/// What the server is started with: where it listens, where its static
/// files are, the hash of the password if one is set, and the games.
#[derive(Debug, PartialEq)]
pub struct Config {
    pub listen_port: u16,
    pub static_dir: String,
    pub password: Option<String>,
    pub games: GameCatalog,
}

impl Config {
    /// Stores a new password hash, or leaves the configuration as it is
    /// where hashing failed.
    pub fn record_hash(&mut self, hashed: Result<String, PanelError>) -> (outcome: Result<
        (),
        PanelError,
    >)
        ensures
            final(self).listen_port == old(self).listen_port,
            final(self).static_dir == old(self).static_dir,
            final(self).games == old(self).games,
            match hashed {
                Ok(text) => outcome is Ok && final(self).password == Some(text),
                Err(e) => outcome == Err::<(), PanelError>(e) && final(self).password == old(
                    self,
                ).password,
            },
    {
        match hashed {
            Ok(text) => {
                self.password = Some(text);
                Ok(())
            },
            Err(e) => Err(e),
        }
    }

    /// Sets the password: stores a fresh salted hash of it, made at the
    /// cost `HASH_COST`. Afterwards the stored hash verifies against
    /// `password`. Where hashing fails nothing changes.
    pub fn set_password(&mut self, password: &str) -> (outcome: Result<(), PanelError>)
        ensures
            final(self).listen_port == old(self).listen_port,
            final(self).static_dir == old(self).static_dir,
            final(self).games == old(self).games,
            match outcome {
                Ok(_) => final(self).password matches Some(text) && bcrypt_verdict(
                    password@,
                    text@,
                ) == Some(true) && made_at_cost(text@, HASH_COST),
                Err(e) => e == PanelError::HashingFailed && final(self).password == old(
                    self,
                ).password,
            },
    {
        let hashed: Result<String, PanelError> = hash_password(password);
        self.record_hash(hashed)
    }
}

} // verus!
