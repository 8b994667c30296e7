//! Command lines: the programs that the panel runs and their arguments.

use vstd::prelude::*;

verus! {

/// A program with its arguments.
#[derive(Debug, PartialEq, Eq)]
pub struct CommandLine {
    pub program: String,
    pub arguments: Vec<String>,
}

/// Model of a command line.
pub struct CommandView {
    pub program: Seq<char>,
    pub arguments: Seq<Seq<char>>,
}

/// The texts of a list of strings.
pub open spec fn view_strings(texts: Seq<String>) -> Seq<Seq<char>> {
    Seq::new(texts.len(), |i: int| texts[i]@)
}

/// The texts of a list of borrowed texts.
pub open spec fn view_strs(texts: Seq<&str>) -> Seq<Seq<char>> {
    Seq::new(texts.len(), |i: int| texts[i]@)
}

impl View for CommandLine {
    type V = CommandView;

    open spec fn view(&self) -> CommandView {
        CommandView { program: self.program@, arguments: view_strings(self.arguments@) }
    }
}

/// The model of a command line of a program and its arguments.
pub open spec fn command_spec(program: Seq<char>, arguments: Seq<Seq<char>>) -> CommandView {
    CommandView { program, arguments }
}

/// Owned copies of a list of texts.
pub fn owned_texts(texts: &Vec<&str>) -> (owned: Vec<String>)
    ensures
        view_strings(owned@) == view_strs(texts@),
{
    let mut owned: Vec<String> = Vec::new();
    let mut i: usize = 0;
    while i < texts.len()
        invariant
            i <= texts.len(),
            owned@.len() == i,
            forall|j: int| 0 <= j < i ==> (#[trigger] owned@[j])@ == texts@[j]@,
        decreases texts.len() - i,
    {
        owned.push(texts[i].to_owned());
        i += 1;
    }
    owned
}

/// The command line of a program and its arguments.
pub fn command(program: &str, arguments: Vec<&str>) -> (line: CommandLine)
    ensures
        line@ == command_spec(program@, view_strs(arguments@)),
{
    CommandLine { program: program.to_owned(), arguments: owned_texts(&arguments) }
}

/// What to do next when several programs are tried in turn up to the first
/// that succeeds.
#[derive(Debug, PartialEq, Eq)]
pub enum NextTry {
    /// Run the try of this number.
    Run(usize),
    /// A try succeeded; this is what it gave.
    Found(String),
    /// Every try was made and none succeeded.
    GiveUp,
}

/// Model of what to do next.
pub enum NextTryView {
    Run(usize),
    Found(Seq<char>),
    GiveUp,
}

impl View for NextTry {
    type V = NextTryView;

    open spec fn view(&self) -> NextTryView {
        match self {
            NextTry::Run(number) => NextTryView::Run(*number),
            NextTry::Found(output) => NextTryView::Found(output@),
            NextTry::GiveUp => NextTryView::GiveUp,
        }
    }
}

/// The rule of trying in turn: what a try gave ends the search; without it
/// the next try is run, and after the last one the search is given up.
pub open spec fn next_try_spec(count: usize, tried: usize, last: Option<Seq<char>>) -> NextTryView {
    match last {
        Some(output) => NextTryView::Found(output),
        None => if tried < count {
            NextTryView::Run(tried)
        } else {
            NextTryView::GiveUp
        },
    }
}

/// What to do next when `count` programs are tried in turn: `tried` says
/// how many tries were made, and `last` what the last of them gave, if it
/// succeeded.
pub fn next_try(count: usize, tried: usize, last: Option<String>) -> (next: NextTry)
    ensures
        next@ == next_try_spec(
            count,
            tried,
            match last {
                Some(output) => Some(output@),
                None => None,
            },
        ),
{
    match last {
        Some(output) => NextTry::Found(output),
        None => {
            if tried < count {
                NextTry::Run(tried)
            } else {
                NextTry::GiveUp
            }
        },
    }
}

} // verus!
