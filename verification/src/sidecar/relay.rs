//! The relay of a worker's output: which lines become events for the application's
//! sink, and when the relay stops.

use vstd::prelude::*;
use crate::sidecar::types::{AgentEventPayload, EventView, ProtocolError, SidecarEvent};
use crate::sidecar::wire::decoded_line;
use crate::text::{trim, trimmed};

verus! {

/// What one blocking read of a line from a worker's output gave.
#[derive(Debug, Clone)]
pub enum LineRead {
    /// A line, without its line end.
    Line(String),
    /// The stream has ended.
    End,
    /// The read failed; the text describes the error.
    Failed(String),
}

/// A read as plain values.
pub enum LineReadView {
    Line(Seq<char>),
    End,
    Failed(Seq<char>),
}

impl View for LineRead {
    type V = LineReadView;

    open spec fn view(&self) -> LineReadView {
        match *self {
            LineRead::Line(line) => LineReadView::Line(line@),
            LineRead::End => LineReadView::End,
            LineRead::Failed(description) => LineReadView::Failed(description@),
        }
    }
}

/// What the relay does with one line.
#[derive(Debug, Clone)]
pub enum RelayStep {
    /// The line is blank: nothing happens.
    Skip,
    /// The line spells an event: it goes to the sink.
    Forward(AgentEventPayload),
    /// The line spells no event: this is noted, and the relay goes on.
    Malformed(ProtocolError),
}

/// What the relay does with one line, as plain values.
pub enum RelayStepView {
    Skip,
    Forward(EventView),
    Malformed(ProtocolError),
}

impl View for RelayStep {
    type V = RelayStepView;

    open spec fn view(&self) -> RelayStepView {
        match *self {
            RelayStep::Skip => RelayStepView::Skip,
            RelayStep::Forward(payload) => RelayStepView::Forward(payload@),
            RelayStep::Malformed(error) => RelayStepView::Malformed(error),
        }
    }
}

/// What the relay does with a line: a line of white space alone is skipped; any other
/// line is decoded without the white space around it.
pub open spec fn step_for(line: Seq<char>) -> RelayStepView {
    if trimmed(line).len() == 0 {
        RelayStepView::Skip
    } else {
        match decoded_line(trimmed(line)) {
            Ok(event) => RelayStepView::Forward(event),
            Err(error) => RelayStepView::Malformed(error),
        }
    }
}

/// The events that a line sends to the sink: one or none.
pub open spec fn forwarded_by(line: Seq<char>) -> Seq<EventView> {
    match step_for(line) {
        RelayStepView::Forward(event) => seq![event],
        _ => Seq::empty(),
    }
}

/// The events that a run of reads sends to the sink, in order: those of each line up to
/// the first read that is no line. A line that spells no event sends nothing and stops
/// nothing.
pub open spec fn forwarded(reads: Seq<LineReadView>) -> Seq<EventView>
    decreases reads.len(),
{
    if reads.len() == 0 {
        Seq::empty()
    } else {
        match reads[0] {
            LineReadView::Line(line) => forwarded_by(line) + forwarded(reads.skip(1)),
            _ => Seq::empty(),
        }
    }
}

/// The events of a list of payloads.
pub open spec fn events_of(payloads: Seq<AgentEventPayload>) -> Seq<EventView> {
    payloads.map_values(|p: AgentEventPayload| p@)
}

/// Whether a line holds nothing but white space.
pub fn is_blank(line: &str) -> (blank: bool)
    ensures
        blank == (trimmed(line@).len() == 0),
{
    trim(line).is_empty()
}

/// Decides what the relay does with one line of a worker's output.
pub fn relay_line(line: &str) -> (step: RelayStep)
    ensures
        step@ == step_for(line@),
{
    let inner = trim(line);
    if inner.is_empty() {
        return RelayStep::Skip;
    }
    match SidecarEvent::from_json(inner) {
        Ok(event) => RelayStep::Forward(AgentEventPayload { event }),
        Err(error) => RelayStep::Malformed(error),
    }
}

/// What the relay does with one read.
#[derive(Debug, Clone)]
pub enum RelayAction {
    /// The read gave a line; the relay deals with it and reads on.
    Continue(RelayStep),
    /// The stream has ended or the read failed: the relay stops. Nothing is sent to the
    /// sink, and the session stays registered until it is removed.
    Stop,
}

/// Decides what the relay does with the outcome of one read.
pub fn relay_read(read: &LineRead) -> (action: RelayAction)
    ensures
        match action {
            RelayAction::Continue(step) => read@ is Line && step@ == step_for(read@->Line_0),
            RelayAction::Stop => !(read@ is Line),
        },
{
    match read {
        LineRead::Line(line) => RelayAction::Continue(relay_line(line.as_str())),
        _ => RelayAction::Stop,
    }
}

/// Relays a run of reads from a worker's output: gives the payloads for the sink, in
/// order.
pub fn read_worker_output(reads: &Vec<LineRead>) -> (payloads: Vec<AgentEventPayload>)
    ensures
        events_of(payloads@) == forwarded(reads@.map_values(|r: LineRead| r@)),
{
    let ghost all = reads@.map_values(|r: LineRead| r@);
    let mut payloads: Vec<AgentEventPayload> = Vec::new();
    let mut i: usize = 0;
    assert(all.skip(0) =~= all);
    while i < reads.len()
        invariant
            i <= reads@.len(),
            all == reads@.map_values(|r: LineRead| r@),
            events_of(payloads@) + forwarded(all.skip(i as int)) == forwarded(all),
        decreases reads@.len() - i,
    {
        let ghost rest = all.skip(i as int);
        assert(rest[0] == reads@[i as int]@);
        assert(rest.skip(1) =~= all.skip(i + 1));
        match relay_read(&reads[i]) {
            RelayAction::Continue(step) => {
                let ghost before = events_of(payloads@);
                let ghost line = reads@[i as int]@->Line_0;
                match step {
                    RelayStep::Forward(payload) => {
                        payloads.push(payload);
                        assert(events_of(payloads@) =~= before + forwarded_by(line));
                    },
                    _ => {
                        assert(before + forwarded_by(line) =~= before);
                    },
                }
                assert(events_of(payloads@) + forwarded(all.skip(i + 1)) =~= before + (forwarded_by(
                    line,
                ) + forwarded(all.skip(i + 1))));
            },
            RelayAction::Stop => {
                assert(events_of(payloads@) + Seq::<EventView>::empty() =~= events_of(payloads@));
                return payloads;
            },
        }
        i += 1;
    }
    assert(events_of(payloads@) + Seq::<EventView>::empty() =~= events_of(payloads@));
    payloads
}

/// Every read of `reads` is a line.
pub open spec fn all_lines(reads: Seq<LineReadView>) -> bool {
    forall|i: int| 0 <= i < reads.len() ==> (#[trigger] reads[i]) is Line
}

/// A line that sends nothing to the sink, be it blank or malformed, changes nothing of
/// what the lines around it send: the relay goes on as if the line had not been there.
pub proof fn lemma_silent_line_is_passed_over(
    before: Seq<LineReadView>,
    line: Seq<char>,
    after: Seq<LineReadView>,
)
    requires
        all_lines(before),
        !(step_for(line) is Forward),
    ensures
        forwarded(before + seq![LineReadView::Line(line)] + after) == forwarded(before + after),
    decreases before.len(),
{
    let with = before + seq![LineReadView::Line(line)] + after;
    let without = before + after;
    if before.len() == 0 {
        assert(with.skip(1) =~= after);
        assert(without =~= after);
        assert(forwarded_by(line) + forwarded(after) =~= forwarded(after));
    } else {
        assert(before[0] is Line);
        assert(with[0] == before[0]);
        assert(without[0] == before[0]);
        assert(with.skip(1) =~= before.skip(1) + seq![LineReadView::Line(line)] + after);
        assert(without.skip(1) =~= before.skip(1) + after);
        assert(all_lines(before.skip(1))) by {
            assert forall|i: int| 0 <= i < before.skip(1).len() implies (#[trigger] before.skip(
                1,
            )[i]) is Line by {
                assert(before[i + 1] is Line);
            }
        }
        lemma_silent_line_is_passed_over(before.skip(1), line, after);
    }
}

/// Nothing that is read after the end of the stream or after a failed read reaches the
/// sink.
pub proof fn lemma_relay_stops(before: Seq<LineReadView>, stop: LineReadView, after: Seq<LineReadView>)
    requires
        !(stop is Line),
    ensures
        forwarded(before + seq![stop] + after) == forwarded(before),
    decreases before.len(),
{
    let all = before + seq![stop] + after;
    if before.len() == 0 {
        assert(all[0] == stop);
    } else {
        assert(all[0] == before[0]);
        assert(all.skip(1) =~= before.skip(1) + seq![stop] + after);
        lemma_relay_stops(before.skip(1), stop, after);
    }
}

} // verus!
