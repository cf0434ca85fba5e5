//! The paste-orchestration state machine.
//!
//! One paste invocation restores focus to the recorded external window and
//! then synthesizes the platform paste shortcut: modifier press, character
//! click, modifier release, in that strict order, with a settle delay before
//! the first key event and a short delay before each later one. The machine
//! here makes every decision of that sequence; the surrounding application
//! performs each issued [`PasteAction`] (an operating-system call or a
//! sleep) and feeds the result back as the next [`PasteEvent`]. A run ends
//! in a terminal state that carries the aggregate outcome.

use vstd::prelude::*;

verus! {

/// Delay, in milliseconds, between requesting the focus transfer and the
/// first key event, letting the asynchronous focus change complete.
pub const SETTLE_MILLIS: u64 = 150;

/// Delay, in milliseconds, before each key event after the first, improving
/// delivery reliability into applications with input queues.
pub const INTER_KEY_MILLIS: u64 = 10;

/// One step of the three-step paste shortcut.
#[derive(Clone, Copy, Debug, PartialEq, Eq)]
pub enum InjectStep {
    /// Press of the platform paste modifier key.
    ModDown,
    /// Click (press and release) of the paste character key.
    CharClick,
    /// Release of the platform paste modifier key.
    ModUp,
}

/// Why a paste invocation failed.
#[derive(Clone, Copy, Debug, PartialEq, Eq)]
pub enum PasteError {
    /// The synthetic-input subsystem could not initialize.
    Initialization,
    /// No previous external window has been recorded.
    Lookup,
    /// The recorded window handle is null.
    Handle,
    /// The operating system denied the foreground transfer.
    Focus,
    /// Synthesis of one key event failed; carries the step that failed and
    /// the underlying operating-system error code.
    Injection { step: InjectStep, code: i32 },
}

impl PasteError {
    /// The failure message of this error, as a sequence of characters.
    pub open spec fn message_view(&self) -> Seq<char> {
        match *self {
            PasteError::Initialization => "failed to initialize the input simulator"@,
            PasteError::Lookup => "no previous window was found"@,
            PasteError::Handle => "the stored window handle is null"@,
            PasteError::Focus => "the system denied the foreground transfer"@,
            PasteError::Injection { step, code: _ } => match step {
                InjectStep::ModDown => "failed to press the modifier key"@,
                InjectStep::CharClick => "failed to click the character key"@,
                InjectStep::ModUp => "failed to release the modifier key"@,
            },
        }
    }

    /// The human-readable failure string surfaced to the invoking layer.
    pub fn message(&self) -> (r: String)
        ensures
            r@ == self.message_view(),
    {
        match *self {
            PasteError::Initialization => "failed to initialize the input simulator".to_owned(),
            PasteError::Lookup => "no previous window was found".to_owned(),
            PasteError::Handle => "the stored window handle is null".to_owned(),
            PasteError::Focus => "the system denied the foreground transfer".to_owned(),
            PasteError::Injection { step, code: _ } => match step {
                InjectStep::ModDown => "failed to press the modifier key".to_owned(),
                InjectStep::CharClick => "failed to click the character key".to_owned(),
                InjectStep::ModUp => "failed to release the modifier key".to_owned(),
            },
        }
    }
}

/// State of one paste invocation.
///
/// `FocusFailed`, `InjectFailed` and `Success` are terminal; the machine
/// ignores every event delivered to a terminal state. `FocusFailed` covers
/// every failure before injection begins, the unavailable input simulator
/// included; a granted focus request moves directly into the settle wait.
#[derive(Clone, Copy, Debug, PartialEq, Eq)]
pub enum PasteState {
    /// No invocation work has started.
    Idle,
    /// A foreground-transfer request for this handle has been issued.
    Focusing { handle: isize },
    /// Terminal: the invocation failed before any key event was issued.
    FocusFailed { error: PasteError },
    /// The settle wait has been issued.
    Settling,
    /// The key event for this step has been issued.
    Injecting { step: InjectStep },
    /// Terminal: a key event failed to synthesize; earlier key events are
    /// not compensated, so a delivered modifier press stays delivered.
    InjectFailed { error: PasteError },
    /// Terminal: all three key events were synthesized.
    Success,
}

/// What the application reports back to the machine.
#[derive(Clone, Copy, Debug, PartialEq, Eq)]
pub enum PasteEvent {
    /// A paste invocation begins, with a snapshot of the shared slot and
    /// whether the synthetic-input subsystem initialized.
    Invoke { snapshot: Option<isize>, simulator_ready: bool },
    /// Whether the operating system granted the foreground transfer.
    FocusResult { granted: bool },
    /// The settle wait has elapsed.
    Settled,
    /// Result of synthesizing the current key event: `None` on success,
    /// otherwise the underlying operating-system error code.
    KeyResult { error: Option<i32> },
}

/// What the application must perform next.
#[derive(Clone, Copy, Debug, PartialEq, Eq)]
pub enum PasteAction {
    /// Request the operating system transfer foreground focus to `handle`.
    RequestFocus { handle: isize },
    /// Sleep for the settle delay.
    Settle { millis: u64 },
    /// Sleep `delay_before_millis`, then synthesize the key event of `step`.
    Inject { step: InjectStep, delay_before_millis: u64 },
}

/// Decision taken from the slot snapshot before any operating-system call:
/// an empty slot fails the lookup, a null handle is rejected without ever
/// issuing a foreground-transfer request, any other handle is the target.
pub open spec fn focus_decision(snapshot: Option<isize>) -> Result<isize, PasteError> {
    match snapshot {
        Option::None => Result::Err(PasteError::Lookup),
        Option::Some(h) => if h == 0 {
            Result::Err(PasteError::Handle)
        } else {
            Result::Ok(h)
        },
    }
}

/// One transition of the machine: the next state, and the action the
/// application must perform, if any. An event that is not the reply the
/// current state waits for — every event in a terminal state included —
/// changes nothing and issues nothing.
pub open spec fn spec_step(s: PasteState, e: PasteEvent) -> (PasteState, Option<PasteAction>) {
    match (s, e) {
        (PasteState::Idle, PasteEvent::Invoke { snapshot, simulator_ready }) => if !simulator_ready {
            (PasteState::FocusFailed { error: PasteError::Initialization }, Option::None)
        } else {
            match focus_decision(snapshot) {
                Result::Err(error) => (PasteState::FocusFailed { error }, Option::None),
                Result::Ok(h) => (
                    PasteState::Focusing { handle: h },
                    Option::Some(PasteAction::RequestFocus { handle: h }),
                ),
            }
        },
        (PasteState::Focusing { handle }, PasteEvent::FocusResult { granted }) => if granted {
            (PasteState::Settling, Option::Some(PasteAction::Settle { millis: SETTLE_MILLIS }))
        } else {
            (PasteState::FocusFailed { error: PasteError::Focus }, Option::None)
        },
        (PasteState::Settling, PasteEvent::Settled) => (
            PasteState::Injecting { step: InjectStep::ModDown },
            Option::Some(
                PasteAction::Inject { step: InjectStep::ModDown, delay_before_millis: 0 },
            ),
        ),
        (PasteState::Injecting { step }, PasteEvent::KeyResult { error }) => match error {
            Option::Some(code) => (
                PasteState::InjectFailed { error: PasteError::Injection { step, code } },
                Option::None,
            ),
            Option::None => match step {
                InjectStep::ModDown => (
                    PasteState::Injecting { step: InjectStep::CharClick },
                    Option::Some(
                        PasteAction::Inject {
                            step: InjectStep::CharClick,
                            delay_before_millis: INTER_KEY_MILLIS,
                        },
                    ),
                ),
                InjectStep::CharClick => (
                    PasteState::Injecting { step: InjectStep::ModUp },
                    Option::Some(
                        PasteAction::Inject {
                            step: InjectStep::ModUp,
                            delay_before_millis: INTER_KEY_MILLIS,
                        },
                    ),
                ),
                InjectStep::ModUp => (PasteState::Success, Option::None),
            },
        },
        _ => (s, Option::None),
    }
}

/// Whether the invocation is over.
pub open spec fn is_terminal(s: PasteState) -> bool {
    match s {
        PasteState::FocusFailed { .. } => true,
        PasteState::InjectFailed { .. } => true,
        PasteState::Success => true,
        _ => false,
    }
}

/// Perform one transition.
pub fn step(s: PasteState, e: PasteEvent) -> (r: (PasteState, Option<PasteAction>))
    ensures
        r == spec_step(s, e),
{
    match (s, e) {
        (PasteState::Idle, PasteEvent::Invoke { snapshot, simulator_ready }) => if !simulator_ready {
            (PasteState::FocusFailed { error: PasteError::Initialization }, Option::None)
        } else {
            match snapshot {
                Option::None => (
                    PasteState::FocusFailed { error: PasteError::Lookup },
                    Option::None,
                ),
                Option::Some(h) => if h == 0 {
                    (PasteState::FocusFailed { error: PasteError::Handle }, Option::None)
                } else {
                    (
                        PasteState::Focusing { handle: h },
                        Option::Some(PasteAction::RequestFocus { handle: h }),
                    )
                },
            }
        },
        (PasteState::Focusing { handle: _ }, PasteEvent::FocusResult { granted }) => if granted {
            (PasteState::Settling, Option::Some(PasteAction::Settle { millis: SETTLE_MILLIS }))
        } else {
            (PasteState::FocusFailed { error: PasteError::Focus }, Option::None)
        },
        (PasteState::Settling, PasteEvent::Settled) => (
            PasteState::Injecting { step: InjectStep::ModDown },
            Option::Some(
                PasteAction::Inject { step: InjectStep::ModDown, delay_before_millis: 0 },
            ),
        ),
        (PasteState::Injecting { step }, PasteEvent::KeyResult { error }) => match error {
            Option::Some(code) => (
                PasteState::InjectFailed { error: PasteError::Injection { step, code } },
                Option::None,
            ),
            Option::None => match step {
                InjectStep::ModDown => (
                    PasteState::Injecting { step: InjectStep::CharClick },
                    Option::Some(
                        PasteAction::Inject {
                            step: InjectStep::CharClick,
                            delay_before_millis: INTER_KEY_MILLIS,
                        },
                    ),
                ),
                InjectStep::CharClick => (
                    PasteState::Injecting { step: InjectStep::ModUp },
                    Option::Some(
                        PasteAction::Inject {
                            step: InjectStep::ModUp,
                            delay_before_millis: INTER_KEY_MILLIS,
                        },
                    ),
                ),
                InjectStep::ModUp => (PasteState::Success, Option::None),
            },
        },
        (s2, _) => (s2, Option::None),
    }
}

/// Aggregate outcome of the invocation: `None` while it is still running,
/// the reported result once a terminal state is reached.
pub open spec fn spec_outcome(s: PasteState) -> Option<Result<(), PasteError>> {
    match s {
        PasteState::FocusFailed { error } => Option::Some(Result::Err(error)),
        PasteState::InjectFailed { error } => Option::Some(Result::Err(error)),
        PasteState::Success => Option::Some(Result::Ok(())),
        _ => Option::None,
    }
}

/// Read the aggregate outcome of the invocation.
pub fn outcome(s: PasteState) -> (r: Option<Result<(), PasteError>>)
    ensures
        r == spec_outcome(s),
        r is Some <==> is_terminal(s),
{
    match s {
        PasteState::FocusFailed { error } => Option::Some(Result::Err(error)),
        PasteState::InjectFailed { error } => Option::Some(Result::Err(error)),
        PasteState::Success => Option::Some(Result::Ok(())),
        _ => Option::None,
    }
}

/// Full run of the machine from state `s` over the delivered events, in
/// order: the final state, and the sequence of every issued action.
pub open spec fn run_machine(s: PasteState, events: Seq<PasteEvent>) -> (
    PasteState,
    Seq<PasteAction>,
)
    decreases events.len(),
{
    if events.len() == 0 {
        (s, Seq::<PasteAction>::empty())
    } else {
        let next = spec_step(s, events[0]).0;
        let issued = spec_step(s, events[0]).1;
        let rest = run_machine(next, events.drop_first());
        match issued {
            Option::Some(a) => (rest.0, seq![a] + rest.1),
            Option::None => rest,
        }
    }
}

/// A terminal state absorbs every later event: the state never changes and
/// no further action is ever issued.
pub proof fn lemma_terminal_absorbs(s: PasteState, events: Seq<PasteEvent>)
    requires
        is_terminal(s),
    ensures
        run_machine(s, events) == (s, Seq::<PasteAction>::empty()),
    decreases events.len(),
{
    if events.len() > 0 {
        assert(spec_step(s, events[0]) == (s, Option::<PasteAction>::None));
        lemma_terminal_absorbs(s, events.drop_first());
    }
}

/// An invocation whose slot snapshot is empty fails with the lookup error
/// and issues no action at all — in particular, zero key events, whatever
/// is delivered afterwards.
pub proof fn lemma_empty_slot_rejected(events: Seq<PasteEvent>)
    ensures
        run_machine(
            PasteState::Idle,
            seq![
                (PasteEvent::Invoke { snapshot: Option::None, simulator_ready: true }),
            ] + events,
        ) == ((PasteState::FocusFailed { error: PasteError::Lookup }), Seq::<PasteAction>::empty()),
{
    let inv = PasteEvent::Invoke { snapshot: Option::None, simulator_ready: true };
    let evs = seq![inv] + events;
    let failed = PasteState::FocusFailed { error: PasteError::Lookup };
    assert(evs[0] == inv);
    assert(evs.drop_first() =~= events);
    assert(spec_step(PasteState::Idle, inv) == (failed, Option::<PasteAction>::None));
    lemma_terminal_absorbs(failed, events);
}

/// An invocation whose slot snapshot holds the null handle fails with the
/// handle error and issues no action at all — in particular, it never
/// requests the foreground transfer, whatever is delivered afterwards.
pub proof fn lemma_null_handle_rejected(events: Seq<PasteEvent>)
    ensures
        run_machine(
            PasteState::Idle,
            seq![
                (PasteEvent::Invoke { snapshot: Option::Some(0isize), simulator_ready: true }),
            ] + events,
        ) == ((PasteState::FocusFailed { error: PasteError::Handle }), Seq::<PasteAction>::empty()),
{
    let inv = PasteEvent::Invoke { snapshot: Option::Some(0isize), simulator_ready: true };
    let evs = seq![inv] + events;
    let failed = PasteState::FocusFailed { error: PasteError::Handle };
    assert(evs[0] == inv);
    assert(evs.drop_first() =~= events);
    assert(spec_step(PasteState::Idle, inv) == (failed, Option::<PasteAction>::None));
    lemma_terminal_absorbs(failed, events);
}

/// The events of an invocation in which every collaborator call succeeds:
/// the focus transfer is granted, the settle wait elapses, and all three
/// key events synthesize.
pub open spec fn all_success_events(snapshot: Option<isize>) -> Seq<PasteEvent> {
    seq![
        (PasteEvent::Invoke { snapshot, simulator_ready: true }),
        (PasteEvent::FocusResult { granted: true }),
        PasteEvent::Settled,
        (PasteEvent::KeyResult { error: Option::None }),
        (PasteEvent::KeyResult { error: Option::None }),
        (PasteEvent::KeyResult { error: Option::None }),
    ]
}

/// Every action a full injection sequence issues, in order: the focus
/// request, the settle wait strictly before the first key event, then
/// exactly one modifier press, one character click and one modifier
/// release, the later two each preceded by the short inter-key delay.
pub open spec fn full_sequence_actions(handle: isize) -> Seq<PasteAction> {
    seq![
        (PasteAction::RequestFocus { handle }),
        (PasteAction::Settle { millis: SETTLE_MILLIS }),
        (PasteAction::Inject { step: InjectStep::ModDown, delay_before_millis: 0 }),
        (PasteAction::Inject { step: InjectStep::CharClick, delay_before_millis: INTER_KEY_MILLIS }),
        (PasteAction::Inject { step: InjectStep::ModUp, delay_before_millis: INTER_KEY_MILLIS }),
    ]
}

/// Happy path: with a non-null recorded handle and every collaborator call
/// succeeding, the invocation issues exactly the actions of
/// [`full_sequence_actions`], in that order, and ends in success.
pub proof fn lemma_happy_path(h: isize)
    requires
        h != 0,
    ensures
        run_machine(PasteState::Idle, all_success_events(Option::Some(h))) == (
            PasteState::Success,
            full_sequence_actions(h),
        ),
{
    let ok = PasteEvent::KeyResult { error: Option::None };
    let evs = all_success_events(Option::Some(h));
    let empty_a = Seq::<PasteAction>::empty();
    let t1 = seq![ok];
    let t2 = seq![ok, ok];
    let t3 = seq![ok, ok, ok];
    let t4 = seq![PasteEvent::Settled, ok, ok, ok];
    let t5 = seq![(PasteEvent::FocusResult { granted: true }), PasteEvent::Settled, ok, ok, ok];
    assert(t1.drop_first() =~= Seq::<PasteEvent>::empty());
    assert(t2.drop_first() =~= t1);
    assert(t3.drop_first() =~= t2);
    assert(t4.drop_first() =~= t3);
    assert(t5.drop_first() =~= t4);
    assert(evs.drop_first() =~= t5);

    let inj_up = PasteAction::Inject { step: InjectStep::ModUp, delay_before_millis: INTER_KEY_MILLIS };
    let inj_click = PasteAction::Inject {
        step: InjectStep::CharClick,
        delay_before_millis: INTER_KEY_MILLIS,
    };
    let inj_down = PasteAction::Inject { step: InjectStep::ModDown, delay_before_millis: 0 };
    let settle = PasteAction::Settle { millis: SETTLE_MILLIS };
    let focus = PasteAction::RequestFocus { handle: h };

    assert(run_machine(PasteState::Success, Seq::<PasteEvent>::empty()) == (
        PasteState::Success,
        empty_a,
    ));
    assert(run_machine(PasteState::Injecting { step: InjectStep::ModUp }, t1) == (
        PasteState::Success,
        empty_a,
    ));
    assert(run_machine(PasteState::Injecting { step: InjectStep::CharClick }, t2) == (
        PasteState::Success,
        seq![inj_up] + empty_a,
    ));
    assert(run_machine(PasteState::Injecting { step: InjectStep::ModDown }, t3) == (
        PasteState::Success,
        seq![inj_click] + (seq![inj_up] + empty_a),
    ));
    assert(run_machine(PasteState::Settling, t4) == (
        PasteState::Success,
        seq![inj_down] + (seq![inj_click] + (seq![inj_up] + empty_a)),
    ));
    assert(run_machine(PasteState::Focusing { handle: h }, t5) == (
        PasteState::Success,
        seq![settle] + (seq![inj_down] + (seq![inj_click] + (seq![inj_up] + empty_a))),
    ));
    assert(run_machine(PasteState::Idle, evs) == (
        PasteState::Success,
        seq![focus] + (seq![settle] + (seq![inj_down] + (seq![inj_click] + (seq![inj_up]
            + empty_a)))),
    ));
    assert(seq![focus] + (seq![settle] + (seq![inj_down] + (seq![inj_click] + (seq![inj_up]
        + empty_a)))) =~= full_sequence_actions(h));
}

/// Events of an invocation in which the focus transfer, the modifier press
/// and the character click succeed, and synthesis of the modifier release
/// fails with the given code.
pub open spec fn release_failure_events(snapshot: Option<isize>, code: i32) -> Seq<PasteEvent> {
    seq![
        (PasteEvent::Invoke { snapshot, simulator_ready: true }),
        (PasteEvent::FocusResult { granted: true }),
        PasteEvent::Settled,
        (PasteEvent::KeyResult { error: Option::None }),
        (PasteEvent::KeyResult { error: Option::None }),
        (PasteEvent::KeyResult { error: Option::Some(code) }),
    ]
}

/// If the modifier press and the character click are delivered but the
/// modifier release fails to synthesize, the invocation reports the release
/// step and its error code, and issues nothing further, whatever is
/// delivered afterwards: the already-delivered press is not retracted, and
/// no compensating release is attempted.
pub proof fn lemma_release_failure_reported(h: isize, code: i32, events: Seq<PasteEvent>)
    requires
        h != 0,
    ensures
        run_machine(PasteState::Idle, release_failure_events(Option::Some(h), code) + events) == (
            (PasteState::InjectFailed {
                error: PasteError::Injection { step: InjectStep::ModUp, code },
            }),
            full_sequence_actions(h),
        ),
{
    let ok = PasteEvent::KeyResult { error: Option::None };
    let err = PasteEvent::KeyResult { error: Option::Some(code) };
    let failed = PasteState::InjectFailed {
        error: PasteError::Injection { step: InjectStep::ModUp, code },
    };
    let evs = release_failure_events(Option::Some(h), code) + events;
    let empty_a = Seq::<PasteAction>::empty();
    let t1 = seq![err] + events;
    let t2 = seq![ok] + t1;
    let t3 = seq![ok] + t2;
    let t4 = seq![PasteEvent::Settled] + t3;
    let t5 = seq![(PasteEvent::FocusResult { granted: true })] + t4;
    assert(t1.drop_first() =~= events);
    assert(t2.drop_first() =~= t1);
    assert(t3.drop_first() =~= t2);
    assert(t4.drop_first() =~= t3);
    assert(t5.drop_first() =~= t4);
    assert(evs.drop_first() =~= t5);
    assert(evs[0] == (PasteEvent::Invoke { snapshot: Option::Some(h), simulator_ready: true }));

    let inj_up = PasteAction::Inject { step: InjectStep::ModUp, delay_before_millis: INTER_KEY_MILLIS };
    let inj_click = PasteAction::Inject {
        step: InjectStep::CharClick,
        delay_before_millis: INTER_KEY_MILLIS,
    };
    let inj_down = PasteAction::Inject { step: InjectStep::ModDown, delay_before_millis: 0 };
    let settle = PasteAction::Settle { millis: SETTLE_MILLIS };
    let focus = PasteAction::RequestFocus { handle: h };

    lemma_terminal_absorbs(failed, events);
    assert(run_machine(PasteState::Injecting { step: InjectStep::ModUp }, t1) == (
        failed,
        empty_a,
    ));
    assert(run_machine(PasteState::Injecting { step: InjectStep::CharClick }, t2) == (
        failed,
        seq![inj_up] + empty_a,
    ));
    assert(run_machine(PasteState::Injecting { step: InjectStep::ModDown }, t3) == (
        failed,
        seq![inj_click] + (seq![inj_up] + empty_a),
    ));
    assert(run_machine(PasteState::Settling, t4) == (
        failed,
        seq![inj_down] + (seq![inj_click] + (seq![inj_up] + empty_a)),
    ));
    assert(run_machine(PasteState::Focusing { handle: h }, t5) == (
        failed,
        seq![settle] + (seq![inj_down] + (seq![inj_click] + (seq![inj_up] + empty_a))),
    ));
    assert(run_machine(PasteState::Idle, evs) == (
        failed,
        seq![focus] + (seq![settle] + (seq![inj_down] + (seq![inj_click] + (seq![inj_up]
            + empty_a)))),
    ));
    assert(seq![focus] + (seq![settle] + (seq![inj_down] + (seq![inj_click] + (seq![inj_up]
        + empty_a)))) =~= full_sequence_actions(h));
}

/// How many transitions an invocation can still take before it must reach a
/// terminal state.
pub open spec fn rank(s: PasteState) -> nat {
    match s {
        PasteState::Idle => 6,
        PasteState::Focusing { .. } => 5,
        PasteState::Settling => 4,
        PasteState::Injecting { step } => match step {
            InjectStep::ModDown => 3,
            InjectStep::CharClick => 2,
            InjectStep::ModUp => 1,
        },
        _ => 0,
    }
}

/// Whether the event is the reply the state is waiting for.
pub open spec fn expected_event(s: PasteState, e: PasteEvent) -> bool {
    match (s, e) {
        (PasteState::Idle, PasteEvent::Invoke { .. }) => true,
        (PasteState::Focusing { .. }, PasteEvent::FocusResult { .. }) => true,
        (PasteState::Settling, PasteEvent::Settled) => true,
        (PasteState::Injecting { .. }, PasteEvent::KeyResult { .. }) => true,
        _ => false,
    }
}

/// Whether every event in the sequence is the reply its state waits for,
/// until and unless the run is already over.
pub open spec fn responsive(s: PasteState, events: Seq<PasteEvent>) -> bool
    decreases events.len(),
{
    events.len() == 0 || {
        &&& is_terminal(s) || expected_event(s, events[0])
        &&& responsive(spec_step(s, events[0]).0, events.drop_first())
    }
}

/// Every answered transition brings the invocation strictly closer to a
/// terminal state.
pub proof fn lemma_step_progress(s: PasteState, e: PasteEvent)
    requires
        !is_terminal(s),
        expected_event(s, e),
    ensures
        rank(spec_step(s, e).0) < rank(s),
{
}

/// Bounded termination: an invocation whose issued actions are each
/// answered reaches a terminal state — success or a reported failure —
/// within [`rank`] of its state, at most six, transitions. Each invocation
/// runs on its own machine value, so two invocations sharing one slot
/// snapshot each terminate this way independently of the other.
pub proof fn lemma_bounded_termination(s: PasteState, events: Seq<PasteEvent>)
    requires
        responsive(s, events),
        rank(s) <= events.len(),
    ensures
        is_terminal(run_machine(s, events).0),
    decreases events.len(),
{
    if is_terminal(s) {
        lemma_terminal_absorbs(s, events);
    } else {
        assert(rank(s) >= 1);
        let e = events[0];
        assert(expected_event(s, e));
        let s1 = spec_step(s, e).0;
        lemma_step_progress(s, e);
        lemma_bounded_termination(s1, events.drop_first());
    }
}

} // verus!
