//! Handling of the messages that the pipeline posts on its bus.

use vstd::prelude::*;
use vstd::string::*;
use crate::text::{debug_text, option_debug, option_text, same_text};
use crate::transport::{spec_state_name, state_name, PipelineState};

verus! {

/// One message from the pipeline's bus.
#[derive(Clone, Debug, PartialEq, Eq)]
pub enum BusEvent {
    /// The stream has played to its end.
    EndOfStream,
    /// The pipeline failed.
    Error {
        /// Identifier of the element that failed, if it has one.
        source: Option<String>,
        /// What went wrong, for the user.
        message: String,
        /// Further detail, if any.
        debug: Option<String>,
    },
    /// An element went from one state to another.
    StateChanged {
        /// Identifier of the element, if it has one.
        source: Option<String>,
        old: PipelineState,
        current: PipelineState,
    },
    /// Any other message.
    Other,
}

/// A bus message with its texts as sequences of characters.
pub enum BusEventView {
    EndOfStream,
    Error { source: Option<Seq<char>>, message: Seq<char>, debug: Option<Seq<char>> },
    StateChanged { source: Option<Seq<char>>, old: PipelineState, current: PipelineState },
    Other,
}

impl View for BusEvent {
    type V = BusEventView;

    open spec fn view(&self) -> BusEventView {
        match self {
            BusEvent::EndOfStream => BusEventView::EndOfStream,
            BusEvent::Error { source, message, debug } => BusEventView::Error {
                source: option_text(source),
                message: message@,
                debug: option_text(debug),
            },
            BusEvent::StateChanged { source, old, current } => BusEventView::StateChanged {
                source: option_text(source),
                old: *old,
                current: *current,
            },
            BusEvent::Other => BusEventView::Other,
        }
    }
}

/// What handling one message leads to.
#[derive(Clone, Debug, PartialEq, Eq)]
pub struct EventOutcome {
    /// A line for standard output, if any.
    pub stdout: Option<String>,
    /// A line for standard error, if any.
    pub stderr: Option<String>,
    /// Whether the event loop ends with this message.
    pub terminal: bool,
}

/// An outcome with its texts as sequences of characters.
pub struct EventOutcomeView {
    pub stdout: Option<Seq<char>>,
    pub stderr: Option<Seq<char>>,
    pub terminal: bool,
}

impl View for EventOutcome {
    type V = EventOutcomeView;

    open spec fn view(&self) -> EventOutcomeView {
        EventOutcomeView {
            stdout: option_text(&self.stdout),
            stderr: option_text(&self.stderr),
            terminal: self.terminal,
        }
    }
}

/// Whether a message ends the event loop: end of stream and errors do.
pub open spec fn is_terminal(e: BusEventView) -> bool {
    e is EndOfStream || e is Error
}

/// The line printed at the end of the stream.
pub open spec fn end_of_stream_notice() -> Seq<char> {
    "End of stream."@
}

/// The line printed for an error.
pub open spec fn error_notice(
    source: Option<Seq<char>>,
    message: Seq<char>,
    debug: Option<Seq<char>>,
) -> Seq<char> {
    "Error from "@ + option_debug(source) + ": "@ + message + " ("@ + option_debug(debug) + ")"@
}

/// The line printed for a state change of the pipeline itself.
pub open spec fn state_change_notice(old: PipelineState, current: PipelineState) -> Seq<char> {
    "Pipeline state: "@ + spec_state_name(old) + " -> "@ + spec_state_name(current)
}

/// What handling `e` leads to when the top-level pipeline is called
/// `pipeline_id`.
pub open spec fn spec_outcome(e: BusEventView, pipeline_id: Seq<char>) -> EventOutcomeView {
    match e {
        BusEventView::EndOfStream => EventOutcomeView {
            stdout: Some(end_of_stream_notice()),
            stderr: None,
            terminal: true,
        },
        BusEventView::Error { source, message, debug } => EventOutcomeView {
            stdout: None,
            stderr: Some(error_notice(source, message, debug)),
            terminal: true,
        },
        BusEventView::StateChanged { source, old, current } => EventOutcomeView {
            stdout: if source == Some(pipeline_id) {
                Some(state_change_notice(old, current))
            } else {
                None
            },
            stderr: None,
            terminal: false,
        },
        BusEventView::Other => EventOutcomeView { stdout: None, stderr: None, terminal: false },
    }
}

/// Number of messages that the event loop takes from `events`: all up to
/// and including the first terminal one, or all of them if none is.
pub open spec fn consumed(events: Seq<BusEventView>) -> nat
    decreases events.len(),
{
    if events.len() == 0 {
        0
    } else if is_terminal(events.first()) {
        1
    } else {
        1 + consumed(events.drop_first())
    }
}

/// Formats the line for an error message.
pub fn error_line(source: &Option<String>, message: &str, debug: &Option<String>) -> (r: String)
    ensures
        r@ == error_notice(option_text(source), message@, option_text(debug)),
{
    let mut r: String = String::from_str("Error from ");
    let s: String = debug_text(source);
    r.append(s.as_str());
    r.append(": ");
    r.append(message);
    r.append(" (");
    let d: String = debug_text(debug);
    r.append(d.as_str());
    r.append(")");
    r
}

/// Handles one bus message. End of stream and errors end the loop; a state
/// change is reported only if it comes from the pipeline itself; anything
/// else is passed over.
pub fn handle_event(event: &BusEvent, pipeline_id: &str) -> (r: EventOutcome)
    ensures
        r@ == spec_outcome(event@, pipeline_id@),
        r.terminal == is_terminal(event@),
{
    match event {
        BusEvent::EndOfStream => EventOutcome {
            stdout: Some(String::from_str("End of stream.")),
            stderr: None,
            terminal: true,
        },
        BusEvent::Error { source, message, debug } => EventOutcome {
            stdout: None,
            stderr: Some(error_line(source, message.as_str(), debug)),
            terminal: true,
        },
        BusEvent::StateChanged { source, old, current } => {
            let own: bool = match source {
                Some(s) => same_text(s.as_str(), pipeline_id),
                None => false,
            };
            let stdout: Option<String> = if own {
                let mut line: String = String::from_str("Pipeline state: ");
                line.append(state_name(*old));
                line.append(" -> ");
                line.append(state_name(*current));
                Some(line)
            } else {
                None
            };
            EventOutcome { stdout, stderr: None, terminal: false }
        },
        BusEvent::Other => EventOutcome { stdout: None, stderr: None, terminal: false },
    }
}

/// Runs the event loop over messages that are already at hand: handles them
/// in order and stops after the first terminal one. Returns one outcome per
/// message handled.
pub fn process_events(events: &Vec<BusEvent>, pipeline_id: &str) -> (r: Vec<EventOutcome>)
    ensures
        r@.len() == consumed(events@.map_values(|e: BusEvent| e@)),
        r@.len() <= events@.len(),
        forall|i: int| 0 <= i < r@.len() ==> (#[trigger] r@[i])@ == spec_outcome(events@[i]@, pipeline_id@),
        forall|i: int| 0 <= i < r@.len() - 1 ==> !(#[trigger] r@[i]).terminal,
        r@.len() < events@.len() ==> r@.len() > 0 && r@[r@.len() - 1].terminal,
{
    let ghost views = events@.map_values(|e: BusEvent| e@);
    let mut out: Vec<EventOutcome> = Vec::new();
    let mut i: usize = 0;
    let mut done: bool = false;
    while i < events.len() && !done
        invariant
            i <= events@.len(),
            out@.len() == i,
            views == events@.map_values(|e: BusEvent| e@),
            forall|j: int| 0 <= j < i ==> (#[trigger] out@[j])@ == spec_outcome(events@[j]@, pipeline_id@),
            forall|j: int| 0 <= j < i ==> (#[trigger] out@[j]).terminal == is_terminal(views[j]),
            forall|j: int| 0 <= j < i - 1 ==> !(#[trigger] out@[j]).terminal,
            done == (i > 0 && out@[i - 1].terminal),
        decreases events@.len() - i,
    {
        let outcome: EventOutcome = handle_event(&events[i], pipeline_id);
        assert(views[i as int] == events@[i as int]@);
        done = outcome.terminal;
        out.push(outcome);
        i = i + 1;
    }
    proof {
        if done {
            assert forall|j: int| 0 <= j < i - 1 implies !is_terminal(#[trigger] views[j]) by {
                assert(!out@[j].terminal);
            }
            assert(out@[i - 1].terminal);
            lemma_consumed_stops(views, i - 1);
        } else {
            assert forall|j: int| 0 <= j < views.len() implies !is_terminal(#[trigger] views[j]) by {
                assert(!out@[j].terminal);
            }
            lemma_consumed_all(views);
        }
    }
    out
}

/// Where no message is terminal, the loop takes them all.
pub proof fn lemma_consumed_all(events: Seq<BusEventView>)
    requires
        forall|j: int| 0 <= j < events.len() ==> !is_terminal(#[trigger] events[j]),
    ensures
        consumed(events) == events.len(),
    decreases events.len(),
{
    if events.len() > 0 {
        let rest = events.drop_first();
        assert forall|j: int| 0 <= j < rest.len() implies !is_terminal(#[trigger] rest[j]) by {
            assert(rest[j] == events[j + 1]);
        }
        lemma_consumed_all(rest);
    }
}

/// If the message at index `i` is terminal and none before it is, the loop
/// takes exactly `i + 1` messages, whatever follows.
pub proof fn lemma_consumed_stops(events: Seq<BusEventView>, i: int)
    requires
        0 <= i < events.len(),
        is_terminal(events[i]),
        forall|j: int| 0 <= j < i ==> !is_terminal(#[trigger] events[j]),
    ensures
        consumed(events) == i + 1,
        consumed(events.subrange(0, i + 1)) == i + 1,
    decreases i,
{
    if i > 0 {
        let rest = events.drop_first();
        assert forall|j: int| 0 <= j < i - 1 implies !is_terminal(#[trigger] rest[j]) by {
            assert(rest[j] == events[j + 1]);
        }
        lemma_consumed_stops(rest, i - 1);
        assert(events.subrange(0, i + 1).drop_first() =~= rest.subrange(0, i));
        assert(events.subrange(0, i + 1).first() == events[0]);
    } else {
        assert(events.subrange(0, 1).first() == events[0]);
    }
}

/// An error ends the event loop exactly once: with an error at index `i`
/// and nothing terminal before it, the loop takes the same `i + 1` messages
/// however many others are pending behind it.
pub proof fn lemma_error_ends_loop(before: Seq<BusEventView>, error: BusEventView, pending: Seq<BusEventView>)
    requires
        error is Error,
        forall|j: int| 0 <= j < before.len() ==> !is_terminal(#[trigger] before[j]),
    ensures
        consumed(before.push(error) + pending) == before.len() + 1,
        consumed(before.push(error) + pending) == consumed(before.push(error)),
{
    let all = before.push(error) + pending;
    let i = before.len() as int;
    assert(all[i] == error);
    assert forall|j: int| 0 <= j < i implies !is_terminal(#[trigger] all[j]) by {
        assert(all[j] == before[j]);
    }
    lemma_consumed_stops(all, i);
    let short = before.push(error);
    assert forall|j: int| 0 <= j < i implies !is_terminal(#[trigger] short[j]) by {
        assert(short[j] == before[j]);
    }
    lemma_consumed_stops(short, i);
}

/// A state change that does not come from the pipeline itself prints
/// nothing and does not end the loop.
pub proof fn lemma_foreign_state_change_is_silent(
    source: Option<Seq<char>>,
    old: PipelineState,
    current: PipelineState,
    pipeline_id: Seq<char>,
)
    requires
        source != Some(pipeline_id),
    ensures
        spec_outcome(BusEventView::StateChanged { source, old, current }, pipeline_id)
            == (EventOutcomeView { stdout: None, stderr: None, terminal: false }),
{
}

} // verus!
