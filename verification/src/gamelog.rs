use vstd::prelude::*;

verus! {

/// The messages shown to the player, oldest first.
pub struct GameLog {
    pub entries: Vec<String>,
}

impl GameLog {
    /// A log holding the welcome message.
    pub fn new() -> (log: GameLog)
        ensures
            log.entries.len() == 1,
            log.entries[0]@ == "Welcome to the Rusty Roguelike!"@,
    {
        let mut entries: Vec<String> = Vec::new();
        entries.push("Welcome to the Rusty Roguelike!".to_owned());
        GameLog { entries }
    }

    /// Appends `msg` to the log.
    pub fn push(&mut self, msg: String)
        ensures
            final(self).entries@ == old(self).entries@.push(msg),
    {
        self.entries.push(msg);
    }
}

} // verus!
