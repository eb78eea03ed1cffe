//! The description of one external command.

use vstd::prelude::*;

verus! {

/// The texts held by a list of strings, in order.
pub open spec fn texts(items: Seq<String>) -> Seq<Seq<char>> {
    items.map_values(|item: String| item@)
}

/// Copies a list of strings.
pub fn copy_texts(items: &Vec<String>) -> (copy: Vec<String>)
    ensures
        texts(copy@) == texts(items@),
{
    let mut copy: Vec<String> = Vec::new();
    let mut at: usize = 0;
    while at < items.len()
        invariant
            at <= items.len(),
            copy.len() == at,
            forall|i: int| 0 <= i < at ==> (#[trigger] copy@[i])@ == items@[i]@,
        decreases items.len() - at,
    {
        copy.push(items[at].clone());
        at += 1;
    }
    assert(texts(copy@) =~= texts(items@));
    copy
}

/// One external command: the program, its arguments in order, the directory
/// it runs in, and the text to deliver on its input channel, if any.
///
/// A command is fixed once built; `with_input` gives a new one.
#[derive(Debug, PartialEq, Eq)]
pub struct StageCommand {
    program: String,
    args: Vec<String>,
    cwd: String,
    input: Option<String>,
}

/// The mathematical value of a `StageCommand`.
pub struct StageCommandView {
    pub program: Seq<char>,
    pub args: Seq<Seq<char>>,
    pub cwd: Seq<char>,
    pub input: Option<Seq<char>>,
}

impl View for StageCommand {
    type V = StageCommandView;

    closed spec fn view(&self) -> StageCommandView {
        StageCommandView {
            program: self.program@,
            args: texts(self.args@),
            cwd: self.cwd@,
            input: match self.input {
                Some(payload) => Some(payload@),
                None => None,
            },
        }
    }
}

impl StageCommandView {
    /// This command with `payload` as its input.
    pub open spec fn with_input(self, payload: Seq<char>) -> StageCommandView {
        StageCommandView { input: Some(payload), ..self }
    }
}

impl Clone for StageCommand {
    fn clone(&self) -> (copy: StageCommand)
        ensures
            copy@ == self@,
    {
        StageCommand {
            program: self.program.clone(),
            args: copy_texts(&self.args),
            cwd: self.cwd.clone(),
            input: match &self.input {
                Some(payload) => Some(payload.clone()),
                None => None,
            },
        }
    }
}

impl StageCommand {
    /// Builds a command.
    pub fn new(program: String, args: Vec<String>, cwd: String, input: Option<String>) -> (command:
        StageCommand)
        ensures
            command@ == (StageCommandView {
                program: program@,
                args: texts(args@),
                cwd: cwd@,
                input: match input {
                    Some(payload) => Some(payload@),
                    None => None,
                },
            }),
    {
        StageCommand { program, args, cwd, input }
    }

    /// The same command with `payload` as its input, whatever it had before.
    pub fn with_input(self, payload: String) -> (command: StageCommand)
        ensures
            command@ == self@.with_input(payload@),
    {
        StageCommand { program: self.program, args: self.args, cwd: self.cwd, input: Some(payload) }
    }

    /// The program to run.
    pub fn program(&self) -> (program: &str)
        ensures
            program@ == self@.program,
    {
        self.program.as_str()
    }

    /// The arguments, in order.
    pub fn args(&self) -> (args: &Vec<String>)
        ensures
            texts(args@) == self@.args,
    {
        &self.args
    }

    /// The directory the program runs in.
    pub fn cwd(&self) -> (cwd: &str)
        ensures
            cwd@ == self@.cwd,
    {
        self.cwd.as_str()
    }

    /// The text to deliver on the input channel, if any.
    pub fn input(&self) -> (input: Option<&str>)
        ensures
            match input {
                Some(payload) => self@.input == Some(payload@),
                None => self@.input is None,
            },
    {
        match &self.input {
            Some(payload) => Some(payload.as_str()),
            None => None,
        }
    }

    /// Whether there is text to deliver on the input channel.
    pub fn has_input(&self) -> (yes: bool)
        ensures
            yes == (self@.input is Some),
    {
        self.input.is_some()
    }
}

} // verus!
