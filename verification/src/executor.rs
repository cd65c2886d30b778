//! The life of one invocation: plan, then either report the plan or run the
//! engine and relay what it says.
//!
//! Nothing here starts a process or reads a stream. The host does that: it
//! carries out each [`Directive`] and answers with the [`Event`] it saw.

use vstd::prelude::*;
use vstd::string::*;
use crate::options::{calibrated, Opts, OptsView};
use crate::text::{join, joined};
use crate::translate::translate;

verus! {

/// How an invocation ended.
#[derive(Debug, Clone, Copy, PartialEq, Eq)]
pub enum Verdict {
    /// The plan was reported, or the engine's diagnostic stream was read to
    /// its end. Says nothing of the engine's exit status, which is never
    /// looked at.
    Completed,
    /// The engine could not be started, or reading its diagnostic stream
    /// failed.
    Failed,
}

/// What the host does next.
#[derive(Debug, Clone, PartialEq, Eq)]
pub enum Directive {
    /// Print the plan; start nothing.
    Report { line: String },
    /// Start `program` with `args`, handed over as they stand and without a
    /// shell, and with its diagnostic stream piped back.
    Spawn { program: String, args: Vec<String> },
    /// Wait for the next line of the diagnostic stream.
    ReadLine,
    /// Print `line`, then wait for the next line of the diagnostic stream.
    Relay { line: String },
    /// Stop, with this verdict.
    Finish { verdict: Verdict },
}

/// What the host saw when it carried out a directive.
#[derive(Debug, Clone, PartialEq, Eq)]
pub enum Event {
    /// The plan was printed.
    Reported,
    /// The engine could not be started.
    SpawnFailed,
    /// The engine runs. `piped` tells whether its diagnostic stream can be
    /// read.
    Spawned { piped: bool },
    /// The diagnostic stream gave a line.
    Line { line: String },
    /// The diagnostic stream reached its end.
    Closed,
    /// Reading the diagnostic stream failed.
    ReadFailed,
}

/// The mathematical content of a [`Directive`].
pub enum DirectiveView {
    Report { line: Seq<char> },
    Spawn { program: Seq<char>, args: Seq<Seq<char>> },
    ReadLine,
    Relay { line: Seq<char> },
    Finish { verdict: Verdict },
}

/// The mathematical content of an [`Event`].
pub enum EventView {
    Reported,
    SpawnFailed,
    Spawned { piped: bool },
    Line { line: Seq<char> },
    Closed,
    ReadFailed,
}

impl View for Directive {
    type V = DirectiveView;

    open spec fn view(&self) -> DirectiveView {
        match *self {
            Directive::Report { line } => DirectiveView::Report { line: line@ },
            Directive::Spawn { program, args } => DirectiveView::Spawn {
                program: program@,
                args: args.deep_view(),
            },
            Directive::ReadLine => DirectiveView::ReadLine,
            Directive::Relay { line } => DirectiveView::Relay { line: line@ },
            Directive::Finish { verdict } => DirectiveView::Finish { verdict },
        }
    }
}

impl View for Event {
    type V = EventView;

    open spec fn view(&self) -> EventView {
        match *self {
            Event::Reported => EventView::Reported,
            Event::SpawnFailed => EventView::SpawnFailed,
            Event::Spawned { piped } => EventView::Spawned { piped },
            Event::Line { line } => EventView::Line { line: line@ },
            Event::Closed => EventView::Closed,
            Event::ReadFailed => EventView::ReadFailed,
        }
    }
}

/// The plan as one line: the engine, a space, and the arguments with a space
/// between neighbours.
pub open spec fn plan_line(program: Seq<char>, args: Seq<Seq<char>>) -> Seq<char> {
    program + " "@ + joined(args, " "@)
}

/// The first directive of an invocation, from the options as the caller
/// gave them: the engine is settled and the arguments are translated either
/// way; a dry run then reports them and anything else runs them.
pub open spec fn planned(o: OptsView) -> DirectiveView {
    let c = calibrated(o);
    if c.dryrun {
        DirectiveView::Report { line: plan_line(c.program, translate(c)) }
    } else {
        DirectiveView::Spawn { program: c.program, args: translate(c) }
    }
}

/// The directive that answers an event.
///
/// A failure to start the engine or to read its stream ends the invocation
/// as failed; nothing is tried again. The end of the stream ends it as
/// completed. A line is relayed as it came.
pub open spec fn reaction(e: EventView) -> DirectiveView {
    match e {
        EventView::Reported => DirectiveView::Finish { verdict: Verdict::Completed },
        EventView::SpawnFailed => DirectiveView::Finish { verdict: Verdict::Failed },
        EventView::Spawned { piped } => if piped {
            DirectiveView::ReadLine
        } else {
            DirectiveView::Finish { verdict: Verdict::Completed }
        },
        EventView::Line { line } => DirectiveView::Relay { line },
        EventView::Closed => DirectiveView::Finish { verdict: Verdict::Completed },
        EventView::ReadFailed => DirectiveView::Finish { verdict: Verdict::Failed },
    }
}

/// Writes the plan as one line.
pub fn command_line(program: &str, args: &Vec<String>) -> (line: String)
    ensures
        line@ == plan_line(program@, args.deep_view()),
{
    let mut line = program.to_owned();
    line.append(" ");
    line.append(join(args, " ").as_str());
    line
}

/// Opens an invocation: calibrates the options in place, translates them,
/// and says what to do with the result. In a dry run that is to report the
/// plan, and never to start the engine.
pub fn plan(opts: &mut Opts) -> (first: Directive)
    ensures
        final(opts)@ == calibrated(old(opts)@),
        first@ == planned(old(opts)@),
        old(opts)@.dryrun ==> first@ is Report,
        !old(opts)@.dryrun ==> first@ is Spawn,
{
    opts.calibrate();
    let args = opts.to_args();
    if opts.dryrun {
        Directive::Report { line: command_line(opts.program.as_str(), &args) }
    } else {
        Directive::Spawn { program: opts.program.clone(), args }
    }
}

/// Answers what the host saw with what it does next.
pub fn react(event: Event) -> (next: Directive)
    ensures
        next@ == reaction(event@),
{
    match event {
        Event::Reported => Directive::Finish { verdict: Verdict::Completed },
        Event::SpawnFailed => Directive::Finish { verdict: Verdict::Failed },
        Event::Spawned { piped } => {
            if piped {
                Directive::ReadLine
            } else {
                Directive::Finish { verdict: Verdict::Completed }
            }
        },
        Event::Line { line } => Directive::Relay { line },
        Event::Closed => Directive::Finish { verdict: Verdict::Completed },
        Event::ReadFailed => Directive::Finish { verdict: Verdict::Failed },
    }
}

/// Every directive of an invocation, in order: the plan's, then one for each
/// event that the host answers with.
pub open spec fn directives(o: OptsView, events: Seq<EventView>) -> Seq<DirectiveView> {
    seq![planned(o)] + events.map_values(|e: EventView| reaction(e))
}

/// No event is answered by starting an engine or by reporting a plan.
pub proof fn lemma_reaction_never_spawns(e: EventView)
    ensures
        !(reaction(e) is Spawn),
        !(reaction(e) is Report),
{
}

/// A dry run never starts the engine, whatever the host answers, and its
/// first directive reports the plan that a real run would have carried out.
pub proof fn lemma_dry_run_starts_nothing(o: OptsView, events: Seq<EventView>)
    requires
        o.dryrun,
    ensures
        forall|i: int|
            0 <= i < directives(o, events).len() ==> !(#[trigger] directives(o, events)[i] is Spawn),
        directives(o, events)[0] == (DirectiveView::Report {
            line: plan_line(calibrated(o).program, translate(calibrated(o))),
        }),
{
}

/// A real run starts the engine once, first thing, and never again: a failure
/// is not answered by another attempt or by another engine.
pub proof fn lemma_real_run_spawns_once(o: OptsView, events: Seq<EventView>)
    requires
        !o.dryrun,
    ensures
        directives(o, events)[0] == (DirectiveView::Spawn {
            program: calibrated(o).program,
            args: translate(calibrated(o)),
        }),
        forall|i: int|
            1 <= i < directives(o, events).len() ==> !(#[trigger] directives(o, events)[i] is Spawn),
{
}

} // verus!
