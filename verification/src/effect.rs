//! The outside work a request handler asks for, and what that work reports
//! back. A handler is a function from the request and what has come back so
//! far to its next effect; the server performs the effect and calls the
//! handler again, until the effect is a reply.
use vstd::prelude::*;
use crate::reply::{Reply, ReplyV};
use crate::text::texts_of;

verus! {

/// What the server does when a program cannot be started.
#[derive(PartialEq, Eq, Structural, Clone, Copy)]
pub enum OnFailure {
    /// The failure is handed back to the handler as `Outcome::Failed`.
    Report,
    /// The failure ends the request with the I/O error.
    Propagate,
    /// The failure aborts the worker.
    Panic,
}

/// A program and its arguments, run with its output captured.
pub struct Invocation {
    pub program: String,
    pub args: Vec<String>,
    pub on_failure: OnFailure,
}

/// The mathematical form of an `Invocation`.
pub struct InvocationV {
    pub program: Seq<char>,
    pub args: Seq<Seq<char>>,
    pub on_failure: OnFailure,
}

impl View for Invocation {
    type V = InvocationV;

    open spec fn view(&self) -> InvocationV {
        InvocationV {
            program: self.program@,
            args: texts_of(self.args@),
            on_failure: self.on_failure,
        }
    }
}

/// What a finished program left: its exit code (none when a signal ended
/// it), how its exit status reads as text, and the bytes of its standard
/// output and error.
#[derive(Clone)]
pub struct Output {
    pub code: Option<i32>,
    pub status_text: String,
    pub stdout: Vec<u8>,
    pub stderr: Vec<u8>,
}

/// The mathematical form of an `Output`.
pub struct OutputV {
    pub code: Option<i32>,
    pub status_text: Seq<char>,
    pub stdout: Seq<u8>,
    pub stderr: Seq<u8>,
}

impl View for Output {
    type V = OutputV;

    open spec fn view(&self) -> OutputV {
        OutputV { code: self.code, status_text: self.status_text@, stdout: self.stdout@, stderr: self.stderr@ }
    }
}

/// How running a program went: it finished, or it could not be run, with
/// the text of the error.
#[derive(Clone)]
pub enum Outcome {
    Finished(Output),
    Failed(String),
}

/// The mathematical form of an `Outcome`.
pub enum OutcomeV {
    Finished(OutputV),
    Failed(Seq<char>),
}

impl View for Outcome {
    type V = OutcomeV;

    open spec fn view(&self) -> OutcomeV {
        match self {
            Outcome::Finished(o) => OutcomeV::Finished(o@),
            Outcome::Failed(e) => OutcomeV::Failed(e@),
        }
    }
}

/// The next thing a handler needs done.
pub enum Effect {
    /// Run a program and capture its output.
    Run(Invocation),
    /// Run a command line in bash under a pseudo terminal and capture its
    /// output; a failure to start it aborts the worker.
    Shell(String),
    /// Run a program with the server's own standard streams, for its exit
    /// code; a failure to start it aborts the worker.
    Check(Invocation),
    /// Find out whether a path exists.
    Probe(String),
    /// Create or truncate the file at `path` and write `content` to it; a
    /// failure aborts the worker.
    Write { path: String, content: String },
    /// Remove the file at a path, reporting whether that worked.
    Remove(String),
    /// Draw a fresh random number, as decimal text.
    Draw,
    /// Answer the request.
    Answer(Reply),
}

/// The mathematical form of an `Effect`.
pub enum EffectV {
    Run(InvocationV),
    Shell(Seq<char>),
    Check(InvocationV),
    Probe(Seq<char>),
    Write { path: Seq<char>, content: Seq<char> },
    Remove(Seq<char>),
    Draw,
    Answer(ReplyV),
}

impl View for Effect {
    type V = EffectV;

    open spec fn view(&self) -> EffectV {
        match self {
            Effect::Run(i) => EffectV::Run(i@),
            Effect::Shell(c) => EffectV::Shell(c@),
            Effect::Check(i) => EffectV::Check(i@),
            Effect::Probe(p) => EffectV::Probe(p@),
            Effect::Write { path, content } => EffectV::Write { path: path@, content: content@ },
            Effect::Remove(p) => EffectV::Remove(p@),
            Effect::Draw => EffectV::Draw,
            Effect::Answer(r) => EffectV::Answer(r@),
        }
    }
}

/// The view of a finished run's outcome, if there is one yet.
pub open spec fn outcome_v(o: Option<Outcome>) -> Option<OutcomeV> {
    match o {
        Some(x) => Some(x@),
        None => None,
    }
}

/// The view of a finished run's output, if there is one yet.
pub open spec fn output_v(o: Option<Output>) -> Option<OutputV> {
    match o {
        Some(x) => Some(x@),
        None => None,
    }
}

/// The list `v` with `s` appended.
pub fn push_text(v: Vec<String>, s: String) -> (r: Vec<String>)
    ensures
        texts_of(r@) == texts_of(v@).push(s@),
{
    let mut r = v;
    let ghost before = r@;
    r.push(s);
    assert(texts_of(r@) =~= texts_of(before).push(s@));
    r
}

/// What carrying out an effect other than an answer brings back.
pub enum Event {
    /// A program ran, or could not be started, reported to the handler.
    Ran(Outcome),
    /// A program or command line ran; a failure to start it has already
    /// ended the request.
    Finished(Output),
    /// The exit code of a program run for its status alone.
    Code(Option<i32>),
    /// Whether a path exists.
    Exists(bool),
    /// A file was written.
    Written,
    /// Whether a file was removed.
    Removed(bool),
    /// A random number was drawn, as decimal text.
    Drawn(String),
}

/// Whether `ev` is what carrying out `e` brings back: a run whose start
/// failure is reported gives `Ran`, any other run or a command line gives
/// `Finished`, a status check `Code`, a probe `Exists`, a write `Written`,
/// a removal `Removed` and a draw `Drawn`; an answer brings back nothing.
pub open spec fn event_fits(e: EffectV, ev: Event) -> bool {
    match e {
        EffectV::Run(inv) => if inv.on_failure == OnFailure::Report {
            ev is Ran
        } else {
            ev is Finished
        },
        EffectV::Shell(_) => ev is Finished,
        EffectV::Check(_) => ev is Code,
        EffectV::Probe(_) => ev is Exists,
        EffectV::Write { .. } => ev is Written,
        EffectV::Remove(_) => ev is Removed,
        EffectV::Draw => ev is Drawn,
        EffectV::Answer(_) => false,
    }
}

/// The outcome a run brought back, for a handler that runs at most one
/// program and reports its start failure itself.
pub fn ran_outcome(ev: Event) -> (r: Option<Outcome>)
    ensures
        r == (match ev {
            Event::Ran(o) => Some(o),
            _ => None::<Outcome>,
        }),
{
    match ev {
        Event::Ran(o) => Some(o),
        _ => None,
    }
}

/// What a program or command line left, for a handler that runs at most
/// one and reads its output.
pub fn finished_output(ev: Event) -> (r: Option<Output>)
    ensures
        r == (match ev {
            Event::Finished(o) => Some(o),
            _ => None::<Output>,
        }),
{
    match ev {
        Event::Finished(o) => Some(o),
        _ => None,
    }
}

/// Whether a removal worked, for a handler that removes at most one file.
pub fn removal_result(ev: Event) -> (r: Option<bool>)
    ensures
        r == (match ev {
            Event::Removed(b) => Some(b),
            _ => None::<bool>,
        }),
{
    match ev {
        Event::Removed(b) => Some(b),
        _ => None,
    }
}

} // verus!
