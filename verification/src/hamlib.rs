//! Hamlib control: the errors a commander reports and the commanders' own
//! logic (command lines, argument lists, reply checks).
pub mod rigctl;
pub mod rigctld;

use vstd::prelude::*;

use crate::text::{join_words, texts, join_with_spaces};

verus! {

/// The line that carries a batch of commands to a `rigctl` process or a
/// `rigctld` connection: the commands separated by single spaces, ended by
/// a line feed.
pub open spec fn command_line_text(commands: Seq<Seq<char>>) -> Seq<char> {
    join_words(commands).push('\n')
}

/// Builds the line that carries a batch of commands.
pub fn command_line(commands: &Vec<String>) -> (line: String)
    ensures
        line@ == command_line_text(texts(commands@)),
{
    let mut line = join_with_spaces(commands);
    proof {
        reveal_strlit("\n");
    }
    line.append("\n");
    line
}

/// An error reported while talking to Hamlib.
#[derive(Debug)]
pub enum HamlibError {
    /// Reading or writing the connection or the process failed; the text
    /// is the I/O error's message.
    Io(String),
    /// Hamlib refused the commands; the text says why.
    Control(String),
}

impl HamlibError {
    /// The text of the error as it is shown to the user.
    pub open spec fn message_text(self) -> Seq<char> {
        match self {
            HamlibError::Io(m) => "IO error: "@ + m@,
            HamlibError::Control(m) => "control error: "@ + m@,
        }
    }

    /// Renders the error for the user.
    pub fn message(&self) -> (s: String)
        ensures
            s@ == self.message_text(),
    {
        match self {
            HamlibError::Io(m) => {
                let mut s = String::from_str("IO error: ");
                s.append(m.as_str());
                s
            },
            HamlibError::Control(m) => {
                let mut s = String::from_str("control error: ");
                s.append(m.as_str());
                s
            },
        }
    }
}

/// Something that forwards Hamlib commands to a rig: a `rigctl` process
/// or a `rigctld` connection. The implementations perform I/O and live
/// with the program that loads this library.
pub trait HamlibCommander {
    /// Sends one batch of commands.
    fn send(&mut self, commands: &[String]) -> Result<(), HamlibError>;

    /// Ends the session with Hamlib.
    fn close(&mut self) -> Result<(), HamlibError>;
}

} // verus!
