//! The protocol of a terminal's reader: what each read from the master side of a
//! terminal makes the reader emit, and when the reader stops.

use vstd::prelude::*;
use crate::pty::transport::{base64_bytes, base64_text, encodable, encode_base64};
use crate::pty::types::{PtyEvent, PtyEventView};

verus! {

/// The most bytes that one read asks for.
pub const CHUNK_SIZE: usize = 4096;

/// What one read gave: the bytes read, none at the end of the stream, or the
/// description of an error.
pub type ChunkRead = Result<Vec<u8>, String>;

/// A read as plain values.
pub open spec fn read_view(read: ChunkRead) -> Result<Seq<u8>, Seq<char>> {
    match read {
        Ok(bytes) => Ok(bytes@),
        Err(description) => Err(description@),
    }
}

/// The event that a read makes the reader emit: the end of the stream is an exit, bytes
/// are output carrying exactly those bytes, an error is an error.
pub open spec fn event_for(read: Result<Seq<u8>, Seq<char>>) -> PtyEventView {
    match read {
        Ok(bytes) => if bytes.len() == 0 {
            PtyEventView::Exit { code: 0 }
        } else {
            PtyEventView::Output { data: base64_text(bytes) }
        },
        Err(description) => PtyEventView::Error { message: "Read error: "@ + description },
    }
}

/// Whether the reader stops after a read: it does after anything but output.
pub open spec fn ends_reader(read: Result<Seq<u8>, Seq<char>>) -> bool {
    match read {
        Ok(bytes) => bytes.len() == 0,
        Err(_) => true,
    }
}

/// The events that the reader emits for a run of reads: one per read, in order, up to
/// and including the first read that ends it.
pub open spec fn events_for(reads: Seq<Result<Seq<u8>, Seq<char>>>) -> Seq<PtyEventView>
    decreases reads.len(),
{
    if reads.len() == 0 {
        Seq::empty()
    } else if ends_reader(reads[0]) {
        seq![event_for(reads[0])]
    } else {
        seq![event_for(reads[0])] + events_for(reads.skip(1))
    }
}

/// One step of the reader.
#[derive(Debug, Clone)]
pub struct ReaderStep {
    /// The event to hand to the sink.
    pub event: PtyEvent,
    /// Whether the reader stops after this event.
    pub done: bool,
}

/// Decides what the reader does with the outcome of one read.
pub fn reader_step(read: &ChunkRead) -> (step: ReaderStep)
    requires
        *read matches Ok(bytes) ==> encodable(bytes@.len()),
    ensures
        step.event@ == event_for(read_view(*read)),
        step.done == ends_reader(read_view(*read)),
        match (*read, step.event) {
            (Ok(bytes), PtyEvent::Output { data }) => base64_bytes(data@) == Some(bytes@),
            _ => true,
        },
{
    match read {
        Ok(bytes) => {
            if bytes.len() == 0 {
                ReaderStep { event: PtyEvent::Exit { code: 0 }, done: true }
            } else {
                ReaderStep { event: PtyEvent::Output { data: encode_base64(bytes) }, done: false }
            }
        },
        Err(description) => {
            let mut message = "Read error: ".to_owned();
            message.append(description.as_str());
            ReaderStep { event: PtyEvent::Error { message }, done: true }
        },
    }
}

/// The reads of a run as plain values.
pub open spec fn read_views(reads: Seq<ChunkRead>) -> Seq<Result<Seq<u8>, Seq<char>>> {
    reads.map_values(|r: ChunkRead| read_view(r))
}

/// The events of a list, as plain values.
pub open spec fn event_views(events: Seq<PtyEvent>) -> Seq<PtyEventView> {
    events.map_values(|e: PtyEvent| e@)
}

/// Runs the reader over a run of reads: gives the events for the sink, in order.
pub fn reader_events(reads: &Vec<ChunkRead>) -> (events: Vec<PtyEvent>)
    requires
        forall|i: int|
            0 <= i < reads@.len() ==> ((#[trigger] reads@[i]) matches Ok(bytes) ==> encodable(
                bytes@.len(),
            )),
    ensures
        event_views(events@) == events_for(read_views(reads@)),
{
    let ghost all = read_views(reads@);
    let mut events: Vec<PtyEvent> = Vec::new();
    let mut i: usize = 0;
    assert(all.skip(0) =~= all);
    while i < reads.len()
        invariant
            i <= reads@.len(),
            all == read_views(reads@),
            forall|k: int|
                0 <= k < reads@.len() ==> ((#[trigger] reads@[k]) matches Ok(bytes) ==> encodable(
                    bytes@.len(),
                )),
            event_views(events@) + events_for(all.skip(i as int)) == events_for(all),
        decreases reads@.len() - i,
    {
        let ghost rest = all.skip(i as int);
        let ghost before = event_views(events@);
        assert(rest[0] == read_view(reads@[i as int]));
        assert(rest.skip(1) =~= all.skip(i + 1));
        let step = reader_step(&reads[i]);
        events.push(step.event);
        assert(event_views(events@) =~= before + seq![event_for(rest[0])]);
        if step.done {
            return events;
        }
        assert(event_views(events@) + events_for(all.skip(i + 1)) =~= before + (seq![
            event_for(rest[0]),
        ] + events_for(all.skip(i + 1))));
        i += 1;
    }
    assert(event_views(events@) + Seq::<PtyEventView>::empty() =~= event_views(events@));
    events
}

/// Whether no read of `reads` ends the reader.
pub open spec fn all_output(reads: Seq<Result<Seq<u8>, Seq<char>>>) -> bool {
    forall|i: int| 0 <= i < reads.len() ==> !ends_reader(#[trigger] reads[i])
}

/// The reader emits one event for each read until one ends it, that one included, and
/// nothing for what is read after it.
pub proof fn lemma_reader_stops(
    before: Seq<Result<Seq<u8>, Seq<char>>>,
    last: Result<Seq<u8>, Seq<char>>,
    after: Seq<Result<Seq<u8>, Seq<char>>>,
)
    requires
        all_output(before),
        ends_reader(last),
    ensures
        events_for(before + seq![last] + after) == before.map_values(
            |r: Result<Seq<u8>, Seq<char>>| event_for(r),
        ).push(event_for(last)),
    decreases before.len(),
{
    let all = before + seq![last] + after;
    let emitted = before.map_values(|r: Result<Seq<u8>, Seq<char>>| event_for(r));
    if before.len() == 0 {
        assert(all[0] == last);
        assert(events_for(all) =~= emitted.push(event_for(last)));
    } else {
        assert(all[0] == before[0]);
        assert(!ends_reader(before[0]));
        assert(all.skip(1) =~= before.skip(1) + seq![last] + after);
        assert(all_output(before.skip(1))) by {
            assert forall|i: int| 0 <= i < before.skip(1).len() implies !ends_reader(
                #[trigger] before.skip(1)[i],
            ) by {
                assert(!ends_reader(before[i + 1]));
            }
        }
        lemma_reader_stops(before.skip(1), last, after);
        let tail = before.skip(1).map_values(|r: Result<Seq<u8>, Seq<char>>| event_for(r));
        assert(seq![event_for(before[0])] + tail.push(event_for(last)) =~= emitted.push(
            event_for(last),
        ));
    }
}

} // verus!
