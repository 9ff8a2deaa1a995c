//! A command line: a placeholder that shows a fixed text and takes any key as a finished
//! command.
use vstd::prelude::*;

use crate::common::Key;

verus! {

pub struct CommandLine {}

/// What a key did to the command line.
#[derive(Debug, PartialEq, Eq)]
pub enum CommandResult {
    Processing,
    Cancelled,
    Done(String),
}

impl CommandLine {
    pub fn render(&self) -> (rows: Vec<String>)
        ensures
            rows@.len() == 1,
            rows@[0]@ == "This is command line"@,
    {
        vec![String::from_str("This is command line")]
    }

    pub fn process_key(&mut self, key: &Key) -> (r: CommandResult)
        ensures
            r matches CommandResult::Done(c) && c@ == "command"@,
    {
        CommandResult::Done(String::from_str("command"))
    }
}

} // verus!
