//! The window manager's event stream.
//!
//! A chunk read from the event socket holds lines of the form
//! `name>>payload`. Lines end at a line feed; a carriage return in front of
//! that line feed belongs to the line ending. Only the name decides what a
//! line means.

use vstd::prelude::*;
use vstd::slice::slice_subrange;
use vstd::string::StringSliceAdditionalSpecFns;
use crate::text::same_bytes;

verus! {

#[derive(Clone, Copy, Debug, PartialEq, Eq, Structural)]
pub enum HyprEvent {
    WorkspaceCreated,
    WorkspaceChanged,
    WorkspaceDestroyed,
    WindowChanged,
    Window2Changed,
    IgnoredEvent,
}

/// What has to be looked up again after a chunk of events.
#[derive(Clone, Copy, Debug, PartialEq, Eq, Structural)]
pub enum Refresh {
    WindowAndWorkspaces,
    Workspaces,
    Nothing,
}

pub const LINE_FEED: u8 = 10;

pub const CARRIAGE_RETURN: u8 = 13;

/// The byte `>`, two of which part an event's name from its payload.
pub const SEPARATOR: u8 = 62;

/// The index of the first line feed at or behind `from`, or the length of the
/// buffer if there is none.
pub open spec fn spec_find_line_feed(buffer: Seq<u8>, from: int) -> int
    decreases buffer.len() - from,
{
    if from >= buffer.len() || buffer[from] == LINE_FEED {
        from
    } else {
        spec_find_line_feed(buffer, from + 1)
    }
}

/// The index of the first `>>` at or behind `from`, or the length of the line
/// if there is none.
pub open spec fn spec_find_separator(line: Seq<u8>, from: int) -> int
    decreases line.len() - from,
{
    if from + 1 >= line.len() {
        line.len() as int
    } else if line[from] == SEPARATOR && line[from + 1] == SEPARATOR {
        from
    } else {
        spec_find_separator(line, from + 1)
    }
}

/// The line that starts at `from` and ends in front of `end`: without the
/// carriage return that stands before a closing line feed.
pub open spec fn spec_line(buffer: Seq<u8>, from: int, end: int) -> Seq<u8> {
    if from < end && end < buffer.len() && buffer[end - 1] == CARRIAGE_RETURN {
        buffer.subrange(from, end - 1)
    } else {
        buffer.subrange(from, end)
    }
}

/// The name of an event line: what stands in front of its first `>>`.
pub open spec fn spec_event_name(line: Seq<u8>) -> Seq<u8> {
    line.subrange(0, spec_find_separator(line, 0))
}

/// The event that a name stands for.
pub open spec fn spec_event_of_name(name: Seq<u8>) -> HyprEvent {
    if name == "activewindow".spec_bytes() {
        HyprEvent::WindowChanged
    } else if name == "workspace".spec_bytes() {
        HyprEvent::WorkspaceChanged
    } else if name == "activewindowv2".spec_bytes() {
        HyprEvent::Window2Changed
    } else if name == "createworkspace".spec_bytes() {
        HyprEvent::WorkspaceCreated
    } else if name == "destroyworkspace".spec_bytes() {
        HyprEvent::WorkspaceDestroyed
    } else {
        HyprEvent::IgnoredEvent
    }
}

/// One event for each line of the buffer from `from` on, in order.
pub open spec fn spec_line_events(buffer: Seq<u8>, from: int) -> Seq<HyprEvent>
    decreases buffer.len() - from,
{
    let end = spec_find_line_feed(buffer, from);
    if from < 0 || from >= buffer.len() || end < from {
        Seq::empty()
    } else if end >= buffer.len() {
        seq![spec_event_of_name(spec_event_name(spec_line(buffer, from, end)))]
    } else {
        seq![spec_event_of_name(spec_event_name(spec_line(buffer, from, end)))]
            + spec_line_events(buffer, end + 1)
    }
}

/// `events` without each event that repeats the one in front of it.
pub open spec fn spec_dedup(events: Seq<HyprEvent>) -> Seq<HyprEvent>
    decreases events.len(),
{
    if events.len() == 0 {
        events
    } else if events.len() >= 2 && events[events.len() - 2] == events.last() {
        spec_dedup(events.drop_last())
    } else {
        spec_dedup(events.drop_last()).push(events.last())
    }
}

/// The events of a chunk: one for each line, runs of the same event counted
/// once.
pub open spec fn spec_parse_events(buffer: Seq<u8>) -> Seq<HyprEvent> {
    spec_dedup(spec_line_events(buffer, 0))
}

/// What a chunk of events asks to look up again: a window change asks for
/// both feeds, a created or destroyed workspace for the workspaces only.
pub open spec fn spec_refresh(events: Seq<HyprEvent>) -> Refresh {
    if events.contains(HyprEvent::WindowChanged) {
        Refresh::WindowAndWorkspaces
    } else if events.contains(HyprEvent::WorkspaceCreated) || events.contains(
        HyprEvent::WorkspaceDestroyed,
    ) {
        Refresh::Workspaces
    } else {
        Refresh::Nothing
    }
}

/// A removed repetition is never the last event: a list and its deduplicated
/// form end with the same event, and the latter is no longer.
pub proof fn lemma_dedup_last(events: Seq<HyprEvent>)
    ensures
        spec_dedup(events).len() <= events.len(),
        events.len() > 0 ==> spec_dedup(events).len() > 0 && spec_dedup(events).last()
            == events.last(),
    decreases events.len(),
{
    if events.len() > 0 {
        lemma_dedup_last(events.drop_last());
    }
}

/// No event of a deduplicated list repeats the one in front of it.
pub proof fn lemma_dedup_no_repeats(events: Seq<HyprEvent>)
    ensures
        forall|i: int|
            0 < i < spec_dedup(events).len() ==> #[trigger] spec_dedup(events)[i] != spec_dedup(
                events,
            )[i - 1],
    decreases events.len(),
{
    if events.len() > 0 {
        let front = events.drop_last();
        lemma_dedup_no_repeats(front);
        lemma_dedup_last(front);
    }
}

/// Deduplication keeps which events occur.
pub proof fn lemma_dedup_contains(events: Seq<HyprEvent>, event: HyprEvent)
    ensures
        spec_dedup(events).contains(event) <==> events.contains(event),
    decreases events.len(),
{
    if events.len() > 0 {
        let front = events.drop_last();
        let last = events.last();
        lemma_dedup_contains(front, event);
        assert(events =~= front.push(last));
        let repeated = events.len() >= 2 && events[events.len() - 2] == last;
        if events.contains(event) {
            let i = choose|i: int| 0 <= i < events.len() && events[i] == event;
            if i < front.len() {
                assert(front[i] == event);
            } else if repeated {
                assert(front[front.len() - 1] == event);
            }
            if !repeated {
                let deduped = spec_dedup(events);
                if i < front.len() {
                    let k = choose|k: int|
                        0 <= k < spec_dedup(front).len() && spec_dedup(front)[k] == event;
                    assert(deduped[k] == event);
                } else {
                    assert(deduped[deduped.len() - 1] == event);
                }
            }
        }
        if spec_dedup(events).contains(event) {
            let deduped = spec_dedup(events);
            let i = choose|i: int| 0 <= i < deduped.len() && deduped[i] == event;
            if events.len() >= 2 && events[events.len() - 2] == last {
                assert(spec_dedup(front).contains(event));
                let j = choose|j: int| 0 <= j < front.len() && front[j] == event;
                assert(events[j] == event);
            } else if i < spec_dedup(front).len() {
                assert(spec_dedup(front)[i] == event);
                assert(spec_dedup(front).contains(event));
                let j = choose|j: int| 0 <= j < front.len() && front[j] == event;
                assert(events[j] == event);
            } else {
                assert(events[events.len() - 1] == event);
            }
        }
    }
}

fn find_line_feed(buffer: &[u8], from: usize) -> (end: usize)
    requires
        from <= buffer@.len(),
    ensures
        end == spec_find_line_feed(buffer@, from as int),
        from <= end <= buffer@.len(),
{
    let mut end: usize = from;
    while end < buffer.len() && buffer[end] != LINE_FEED
        invariant
            from <= end <= buffer@.len(),
            spec_find_line_feed(buffer@, from as int) == spec_find_line_feed(buffer@, end as int),
        decreases buffer.len() - end,
    {
        end += 1;
    }
    end
}

fn find_separator(line: &[u8]) -> (end: usize)
    ensures
        end == spec_find_separator(line@, 0),
        end <= line@.len(),
{
    let mut index: usize = 0;
    while line.len() - index >= 2
        invariant
            index <= line@.len(),
            spec_find_separator(line@, 0) == spec_find_separator(line@, index as int),
        decreases line.len() - index,
    {
        if line[index] == SEPARATOR && line[index + 1] == SEPARATOR {
            return index;
        }
        index += 1;
    }
    line.len()
}

/// Tells which event a name stands for.
pub fn event_of_name(name: &[u8]) -> (event: HyprEvent)
    ensures
        event == spec_event_of_name(name@),
{
    if same_bytes(name, "activewindow".as_bytes()) {
        HyprEvent::WindowChanged
    } else if same_bytes(name, "workspace".as_bytes()) {
        HyprEvent::WorkspaceChanged
    } else if same_bytes(name, "activewindowv2".as_bytes()) {
        HyprEvent::Window2Changed
    } else if same_bytes(name, "createworkspace".as_bytes()) {
        HyprEvent::WorkspaceCreated
    } else if same_bytes(name, "destroyworkspace".as_bytes()) {
        HyprEvent::WorkspaceDestroyed
    } else {
        HyprEvent::IgnoredEvent
    }
}

/// Tells which event one line stands for.
pub fn event_of_line(line: &[u8]) -> (event: HyprEvent)
    ensures
        event == spec_event_of_name(spec_event_name(line@)),
{
    let end = find_separator(line);
    event_of_name(slice_subrange(line, 0, end))
}

/// Reads the events of one chunk from the event socket.
pub fn parse_events(buffer: &[u8]) -> (events: Vec<HyprEvent>)
    ensures
        events@ == spec_parse_events(buffer@),
{
    let mut events: Vec<HyprEvent> = Vec::new();
    let mut previous: Option<HyprEvent> = None;
    let mut from: usize = 0;
    let ghost mut seen: Seq<HyprEvent> = Seq::empty();
    while from < buffer.len()
        invariant
            from <= buffer@.len(),
            spec_line_events(buffer@, 0) == seen + spec_line_events(buffer@, from as int),
            events@ == spec_dedup(seen),
            previous == if seen.len() > 0 {
                Some(seen.last())
            } else {
                None::<HyprEvent>
            },
        decreases buffer.len() - from,
    {
        let end = find_line_feed(buffer, from);
        let line = if from < end && end < buffer.len() && buffer[end - 1] == CARRIAGE_RETURN {
            slice_subrange(buffer, from, end - 1)
        } else {
            slice_subrange(buffer, from, end)
        };
        let event = event_of_line(line);
        let next: usize = if end < buffer.len() {
            end + 1
        } else {
            end
        };
        proof {
            let rest = spec_line_events(buffer@, next as int);
            assert(spec_line_events(buffer@, from as int) =~= seq![event] + rest);
            assert(seen + (seq![event] + rest) =~= seen.push(event) + rest);
            assert(seen.push(event).drop_last() =~= seen);
            seen = seen.push(event);
        }
        let repeated = match previous {
            Some(last) => last == event,
            None => false,
        };
        if !repeated {
            events.push(event);
        }
        previous = Some(event);
        from = next;
    }
    assert(spec_line_events(buffer@, from as int) =~= Seq::<HyprEvent>::empty());
    assert(seen + Seq::<HyprEvent>::empty() =~= seen);
    events
}

/// The events of one chunk from the event socket, runs of the same event
/// counted once.
#[derive(Debug)]
pub struct HyprEventList(pub Vec<HyprEvent>);

impl View for HyprEventList {
    type V = Seq<HyprEvent>;

    open spec fn view(&self) -> Seq<HyprEvent> {
        self.0@
    }
}

impl HyprEventList {
    /// Reads the events of one chunk.
    pub fn parse(buffer: &[u8]) -> (list: HyprEventList)
        ensures
            list@ == spec_parse_events(buffer@),
    {
        HyprEventList(parse_events(buffer))
    }

    pub fn contains(&self, event: &HyprEvent) -> (found: bool)
        ensures
            found == self@.contains(*event),
    {
        let mut index: usize = 0;
        while index < self.0.len()
            invariant
                index <= self.0@.len(),
                forall|i: int| 0 <= i < index ==> self.0@[i] != *event,
            decreases self.0.len() - index,
        {
            if self.0[index] == *event {
                return true;
            }
            index += 1;
        }
        false
    }

    /// Whether the list holds one of `events`.
    pub fn contains_at_least(&self, events: &[&HyprEvent]) -> (found: bool)
        ensures
            found == exists|i: int| 0 <= i < events@.len() && self@.contains(*events@[i]),
    {
        let mut index: usize = 0;
        while index < events.len()
            invariant
                index <= events@.len(),
                forall|i: int| 0 <= i < index ==> !self@.contains(*events@[i]),
            decreases events.len() - index,
        {
            if self.contains(events[index]) {
                return true;
            }
            index += 1;
        }
        false
    }

    /// Tells what has to be looked up again.
    pub fn refresh(&self) -> (plan: Refresh)
        ensures
            plan == spec_refresh(self@),
    {
        if self.contains(&HyprEvent::WindowChanged) {
            Refresh::WindowAndWorkspaces
        } else if self.contains(&HyprEvent::WorkspaceCreated) || self.contains(
            &HyprEvent::WorkspaceDestroyed,
        ) {
            Refresh::Workspaces
        } else {
            Refresh::Nothing
        }
    }
}

} // verus!
