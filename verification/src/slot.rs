//! The shared "last external window" slot and the foreground-watcher decision.
//!
//! The operating system reports every foreground-window change to the
//! watcher. The watcher resolves the new window's title and must ignore the
//! event when the title is the manager's own main-window title; every other
//! event overwrites the slot with the new window's handle (last write wins).
//! That decision is made here, on plain values; the caller owns the event
//! hook and serializes access to the slot with a mutual-exclusion primitive
//! held only for the duration of one read or write.

use vstd::prelude::*;

verus! {

/// Effect of one foreground-change event on the slot: an event whose resolved
/// title equals the main window's title leaves the slot unchanged; any other
/// event overwrites the slot with that window's handle.
pub open spec fn observe_spec(
    slot: Option<isize>,
    main_title: Seq<char>,
    title: Seq<char>,
    handle: isize,
) -> Option<isize> {
    if title == main_title {
        slot
    } else {
        Some(handle)
    }
}

/// Slot state after a whole sequence of foreground-change events, applied in
/// delivery order. An event is the pair of the resolved title and the handle.
pub open spec fn run_watcher(
    slot: Option<isize>,
    main_title: Seq<char>,
    events: Seq<(Seq<char>, isize)>,
) -> Option<isize>
    decreases events.len(),
{
    if events.len() == 0 {
        slot
    } else {
        run_watcher(
            observe_spec(slot, main_title, events[0].0, events[0].1),
            main_title,
            events.drop_first(),
        )
    }
}

/// Single-slot state holding the handle of the most recent external
/// foreground window, or nothing when no external window has been seen.
///
/// The slot never holds the main window's own handle: the only write path,
/// [`SharedLastWindow::observe_foreground`], drops every event whose resolved
/// title equals the main-window title.
pub struct SharedLastWindow {
    last: Option<isize>,
}

impl View for SharedLastWindow {
    type V = Option<isize>;

    closed spec fn view(&self) -> Option<isize> {
        self.last
    }
}

impl SharedLastWindow {
    /// Create the slot empty, as it is at application startup.
    pub fn new() -> (r: Self)
        ensures
            r@ == None::<isize>,
    {
        SharedLastWindow { last: None }
    }

    /// Record one foreground-change event: ignore the event when the resolved
    /// `title` equals `main_title`, otherwise overwrite the slot with
    /// `handle`.
    pub fn observe_foreground(&mut self, title: &String, main_title: &String, handle: isize)
        ensures
            final(self)@ == observe_spec(old(self)@, main_title@, title@, handle),
    {
        if !(*title == *main_title) {
            self.last = Some(handle);
        }
    }

    /// Atomic snapshot copy of the slot, for the focus step and diagnostics.
    pub fn get_previous_window(&self) -> (r: Option<isize>)
        ensures
            r == self@,
    {
        self.last
    }
}

/// Whether the sequence holds at least one external event: one whose
/// resolved title differs from the main window's title.
pub open spec fn has_external(main_title: Seq<char>, events: Seq<(Seq<char>, isize)>) -> bool {
    exists|i: int| 0 <= i < events.len() && events[i].0 != main_title
}

/// Index of the most recently delivered external event, or a negative value
/// when the sequence holds none.
pub open spec fn last_external_index(
    main_title: Seq<char>,
    events: Seq<(Seq<char>, isize)>,
) -> int
    decreases events.len(),
{
    if events.len() == 0 {
        -1
    } else if events.last().0 != main_title {
        events.len() - 1
    } else {
        last_external_index(main_title, events.drop_last())
    }
}

/// Appending one event to a sequence applies its effect last.
pub proof fn lemma_run_watcher_snoc(
    slot: Option<isize>,
    main_title: Seq<char>,
    events: Seq<(Seq<char>, isize)>,
    ev: (Seq<char>, isize),
)
    ensures
        run_watcher(slot, main_title, events.push(ev)) == observe_spec(
            run_watcher(slot, main_title, events),
            main_title,
            ev.0,
            ev.1,
        ),
    decreases events.len(),
{
    let pushed = events.push(ev);
    if events.len() == 0 {
        assert(pushed[0] == ev);
        assert(pushed.drop_first() =~= Seq::<(Seq<char>, isize)>::empty());
        assert(run_watcher(
            observe_spec(slot, main_title, ev.0, ev.1),
            main_title,
            Seq::<(Seq<char>, isize)>::empty(),
        ) == observe_spec(slot, main_title, ev.0, ev.1));
    } else {
        assert(pushed[0] == events[0]);
        assert(pushed.drop_first() =~= events.drop_first().push(ev));
        lemma_run_watcher_snoc(
            observe_spec(slot, main_title, events[0].0, events[0].1),
            main_title,
            events.drop_first(),
            ev,
        );
    }
}

/// Every foreground-change event whose resolved title equals the main
/// window's title is ignored: a whole sequence of such events leaves the
/// slot exactly as it was.
pub proof fn lemma_own_title_events_ignored(
    slot: Option<isize>,
    main_title: Seq<char>,
    events: Seq<(Seq<char>, isize)>,
)
    requires
        forall|i: int| 0 <= i < events.len() ==> (#[trigger] events[i]).0 == main_title,
    ensures
        run_watcher(slot, main_title, events) == slot,
    decreases events.len(),
{
    if events.len() > 0 {
        assert(events[0].0 == main_title);
        assert forall|i: int|
            0 <= i < events.drop_first().len() implies (#[trigger] events.drop_first()[i]).0
            == main_title by {
            assert(events.drop_first()[i] == events[i + 1]);
        }
        lemma_own_title_events_ignored(slot, main_title, events.drop_first());
    }
}

/// Last write wins: after any event sequence holding at least one external
/// event, the slot equals the handle of the most recently delivered
/// external event — later own-title events change nothing.
pub proof fn lemma_last_write_wins(
    slot: Option<isize>,
    main_title: Seq<char>,
    events: Seq<(Seq<char>, isize)>,
)
    requires
        has_external(main_title, events),
    ensures
        ({
            let j = last_external_index(main_title, events);
            &&& 0 <= j < events.len()
            &&& (events[j]).0 != main_title
            &&& (forall|i: int| j < i < events.len() ==> (#[trigger] events[i]).0 == main_title)
            &&& run_watcher(slot, main_title, events) == Some((events[j]).1)
        }),
    decreases events.len(),
{
    let last = events.last();
    let front = events.drop_last();
    assert(events =~= front.push(last));
    lemma_run_watcher_snoc(slot, main_title, front, last);
    if last.0 == main_title {
        assert(has_external(main_title, front)) by {
            let i = choose|i: int| 0 <= i < events.len() && (events[i]).0 != main_title;
            assert(front[i] == events[i]);
        }
        lemma_last_write_wins(slot, main_title, front);
        let j = last_external_index(main_title, front);
        assert(front[j] == events[j]);
        assert forall|i: int| j < i < events.len() implies (#[trigger] events[i]).0
            == main_title by {
            if i < events.len() - 1 {
                assert(events[i] == front[i]);
            }
        }
    }
}

} // verus!
