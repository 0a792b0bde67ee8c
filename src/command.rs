//! Commands typed at the prompt of the plain list printer.
use vstd::prelude::*;
use crate::text::{chars_of, split_words, views, words};

verus! {

/// A command line of the prompt, read.
#[derive(Debug)]
pub enum Command {
    /// Nothing was typed.
    Empty,
    Quit,
    Help,
    Checkout(String),
    Reset(String),
    CherryPick(String),
    /// Name of a branch to create at the current commit.
    Branch(String),
    /// Name of a tag to create at the current commit.
    Tag(String),
    /// A command letter that needs an argument came without one.
    Usage(char),
    /// The first word is no command.
    Unknown(String),
}

/// `w` is the one-letter word `c`.
pub open spec fn is_letter(w: Seq<char>, c: char) -> bool {
    w.len() == 1 && w[0] == c
}

/// `cmd` is what command letter `l` with argument words `w` asks for.
pub open spec fn is_argument_command(cmd: Command, l: char, w: Seq<Seq<char>>) -> bool {
    if w.len() > 1 {
        match l {
            'c' => cmd matches Command::Checkout(x) && x@ == w[1],
            'r' => cmd matches Command::Reset(x) && x@ == w[1],
            'p' => cmd matches Command::CherryPick(x) && x@ == w[1],
            'b' => cmd matches Command::Branch(x) && x@ == w[1],
            _ => cmd matches Command::Tag(x) && x@ == w[1],
        }
    } else {
        cmd matches Command::Usage(x) && x == l
    }
}

/// `cmd` is the command that line `input` asks for.
pub open spec fn is_command_for(cmd: Command, input: Seq<char>) -> bool {
    let w = words(input);
    if w.len() == 0 {
        cmd is Empty
    } else if is_letter(w[0], 'q') {
        cmd is Quit
    } else if is_letter(w[0], 'h') {
        cmd is Help
    } else if w[0].len() == 1 && (w[0][0] == 'c' || w[0][0] == 'r' || w[0][0] == 'p' || w[0][0]
        == 'b' || w[0][0] == 't') {
        is_argument_command(cmd, w[0][0], w)
    } else {
        cmd matches Command::Unknown(x) && x@ == w[0]
    }
}

/// Reads a command line: its first word picks the command, its second is the
/// argument.
pub fn parse_command(input: &str) -> (r: Command)
    ensures
        is_command_for(r, input@),
{
    let cs = chars_of(input);
    let mut w = split_words(cs.as_slice());
    assert(views(w@) == words(input@));
    if w.len() == 0 {
        return Command::Empty;
    }
    let first = chars_of(w[0].as_str());
    assert(first@ == words(input@)[0]);
    if first.len() != 1 {
        return Command::Unknown(w.swap_remove(0));
    }
    let l = first[0];
    if l == 'q' {
        return Command::Quit;
    }
    if l == 'h' {
        return Command::Help;
    }
    if l != 'c' && l != 'r' && l != 'p' && l != 'b' && l != 't' {
        return Command::Unknown(w.swap_remove(0));
    }
    if w.len() < 2 {
        return Command::Usage(l);
    }
    assert(w@[1]@ == words(input@)[1]);
    let arg = w.swap_remove(1);
    if l == 'c' {
        Command::Checkout(arg)
    } else if l == 'r' {
        Command::Reset(arg)
    } else if l == 'p' {
        Command::CherryPick(arg)
    } else if l == 'b' {
        Command::Branch(arg)
    } else {
        Command::Tag(arg)
    }
}

} // verus!
