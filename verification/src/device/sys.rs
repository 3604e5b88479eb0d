//! Commands and file writes that device operations come down to.
use vstd::prelude::*;

use crate::text::{slices, texts, trim, trimmed, CharClass};

verus! {

/// A program to run with its arguments.
#[derive(Debug)]
pub struct Command {
    pub program: String,
    pub args: Vec<String>,
}

/// What a [`Command`] runs.
pub struct CommandView {
    pub program: Seq<char>,
    pub args: Seq<Seq<char>>,
}

impl View for Command {
    type V = CommandView;

    open spec fn view(&self) -> CommandView {
        CommandView { program: self.program@, args: texts(self.args@) }
    }
}

/// Text to write to a file.
#[derive(Debug)]
pub struct FileWrite {
    pub path: String,
    pub text: String,
}

/// What a [`FileWrite`] writes.
pub struct FileWriteView {
    pub path: Seq<char>,
    pub text: Seq<char>,
}

impl View for FileWrite {
    type V = FileWriteView;

    open spec fn view(&self) -> FileWriteView {
        FileWriteView { path: self.path@, text: self.text@ }
    }
}

/// A command with the given program and arguments.
pub fn command(program: &str, args: Vec<&str>) -> (r: Command)
    ensures
        r@ == (CommandView { program: program@, args: slices(args@) }),
{
    let mut owned: Vec<String> = Vec::new();
    let mut i: usize = 0;
    while i < args.len()
        invariant
            i <= args.len(),
            texts(owned@) == slices(args@).take(i as int),
        decreases args.len() - i,
    {
        let ghost before = owned@;
        owned.push(args[i].to_string());
        assert(texts(owned@) =~= texts(before).push(args@[i as int]@));
        assert(slices(args@).take(i + 1) =~= slices(args@).take(i as int).push(args@[i as int]@));
        i += 1;
    }
    assert(slices(args@).take(i as int) =~= slices(args@));
    Command { program: program.to_string(), args: owned }
}

/// The useful output of a finished command: its standard output without surrounding white space,
/// or nothing where it failed.
pub fn run(success: bool, stdout: &str) -> (r: Option<&str>)
    ensures
        match r {
            Some(out) => success && out@ == trim(stdout@, CharClass::Whitespace),
            None => !success,
        },
{
    if success {
        Some(trimmed(stdout, CharClass::Whitespace))
    } else {
        None
    }
}

} // verus!
