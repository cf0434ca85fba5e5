use paste_core::machine::{
    outcome, step, InjectStep, PasteAction, PasteError, PasteEvent, PasteState, INTER_KEY_MILLIS,
    SETTLE_MILLIS,
};

/// Drive the machine from `Idle` over the scripted events, collecting every
/// issued action, and stop once a terminal state is reached.
fn run_script(events: Vec<PasteEvent>) -> (PasteState, Vec<PasteAction>) {
    let mut state = PasteState::Idle;
    let mut actions: Vec<PasteAction> = Vec::new();
    for event in events {
        let (next, action) = step(state, event);
        state = next;
        if let Some(a) = action {
            actions.push(a);
        }
        if outcome(state).is_some() {
            break;
        }
    }
    (state, actions)
}

fn invoke(snapshot: Option<isize>) -> PasteEvent {
    PasteEvent::Invoke {
        snapshot,
        simulator_ready: true,
    }
}

#[test]
fn empty_slot_fails_lookup_with_zero_key_events() {
    let (state, actions) = run_script(vec![invoke(None)]);
    assert_eq!(
        state,
        PasteState::FocusFailed {
            error: PasteError::Lookup
        }
    );
    assert_eq!(outcome(state), Some(Err(PasteError::Lookup)));
    assert!(actions.is_empty());
}

#[test]
fn null_handle_fails_without_focus_request() {
    let (state, actions) = run_script(vec![invoke(Some(0))]);
    assert_eq!(
        state,
        PasteState::FocusFailed {
            error: PasteError::Handle
        }
    );
    assert_eq!(outcome(state), Some(Err(PasteError::Handle)));
    assert!(actions.is_empty());
}

#[test]
fn unready_simulator_fails_initialization() {
    let (state, actions) = run_script(vec![PasteEvent::Invoke {
        snapshot: Some(17),
        simulator_ready: false,
    }]);
    assert_eq!(
        state,
        PasteState::FocusFailed {
            error: PasteError::Initialization
        }
    );
    assert_eq!(outcome(state), Some(Err(PasteError::Initialization)));
    assert!(actions.is_empty());
}

#[test]
fn denied_focus_fails_without_key_events() {
    let (state, actions) = run_script(vec![
        invoke(Some(17)),
        PasteEvent::FocusResult { granted: false },
    ]);
    assert_eq!(
        state,
        PasteState::FocusFailed {
            error: PasteError::Focus
        }
    );
    assert_eq!(outcome(state), Some(Err(PasteError::Focus)));
    assert_eq!(actions, vec![PasteAction::RequestFocus { handle: 17 }]);
}

#[test]
fn happy_path_issues_the_exact_action_sequence() {
    let ok = PasteEvent::KeyResult { error: None };
    let (state, actions) = run_script(vec![
        invoke(Some(17)),
        PasteEvent::FocusResult { granted: true },
        PasteEvent::Settled,
        ok,
        ok,
        ok,
    ]);
    assert_eq!(state, PasteState::Success);
    assert_eq!(outcome(state), Some(Ok(())));
    assert_eq!(
        actions,
        vec![
            PasteAction::RequestFocus { handle: 17 },
            PasteAction::Settle {
                millis: SETTLE_MILLIS
            },
            PasteAction::Inject {
                step: InjectStep::ModDown,
                delay_before_millis: 0
            },
            PasteAction::Inject {
                step: InjectStep::CharClick,
                delay_before_millis: INTER_KEY_MILLIS
            },
            PasteAction::Inject {
                step: InjectStep::ModUp,
                delay_before_millis: INTER_KEY_MILLIS
            },
        ]
    );
}

#[test]
fn modifier_press_failure_reports_press_error() {
    let (state, actions) = run_script(vec![
        invoke(Some(17)),
        PasteEvent::FocusResult { granted: true },
        PasteEvent::Settled,
        PasteEvent::KeyResult { error: Some(4) },
    ]);
    assert_eq!(
        state,
        PasteState::InjectFailed {
            error: PasteError::Injection {
                step: InjectStep::ModDown,
                code: 4
            }
        }
    );
    // The press request was issued; nothing further follows its failure.
    assert_eq!(actions.len(), 3);
    assert_eq!(
        actions[2],
        PasteAction::Inject {
            step: InjectStep::ModDown,
            delay_before_millis: 0
        }
    );
}

#[test]
fn release_failure_reports_release_error_without_retraction() {
    let ok = PasteEvent::KeyResult { error: None };
    let (state, actions) = run_script(vec![
        invoke(Some(17)),
        PasteEvent::FocusResult { granted: true },
        PasteEvent::Settled,
        ok,
        ok,
        PasteEvent::KeyResult { error: Some(4) },
    ]);
    assert_eq!(
        state,
        PasteState::InjectFailed {
            error: PasteError::Injection {
                step: InjectStep::ModUp,
                code: 4
            }
        }
    );
    assert_eq!(outcome(state), Some(Err(PasteError::Injection {
        step: InjectStep::ModUp,
        code: 4
    })));
    // All three key requests were issued, in order, and no compensating
    // action follows the failed release.
    assert_eq!(actions.len(), 5);
    assert_eq!(
        actions[2],
        PasteAction::Inject {
            step: InjectStep::ModDown,
            delay_before_millis: 0
        }
    );
    assert_eq!(
        actions[3],
        PasteAction::Inject {
            step: InjectStep::CharClick,
            delay_before_millis: INTER_KEY_MILLIS
        }
    );
    assert_eq!(
        actions[4],
        PasteAction::Inject {
            step: InjectStep::ModUp,
            delay_before_millis: INTER_KEY_MILLIS
        }
    );
}

#[test]
fn terminal_state_ignores_later_events() {
    let (state, action) = step(
        PasteState::Success,
        PasteEvent::KeyResult { error: Some(1) },
    );
    assert_eq!(state, PasteState::Success);
    assert_eq!(action, None);

    let failed = PasteState::FocusFailed {
        error: PasteError::Lookup,
    };
    let (state, action) = step(failed, PasteEvent::Settled);
    assert_eq!(state, failed);
    assert_eq!(action, None);
}

#[test]
fn mismatched_event_changes_nothing() {
    let (state, action) = step(PasteState::Settling, PasteEvent::FocusResult { granted: true });
    assert_eq!(state, PasteState::Settling);
    assert_eq!(action, None);
}

#[test]
fn settle_delay_precedes_first_key_event() {
    let ok = PasteEvent::KeyResult { error: None };
    let (_, actions) = run_script(vec![
        invoke(Some(17)),
        PasteEvent::FocusResult { granted: true },
        PasteEvent::Settled,
        ok,
        ok,
        ok,
    ]);
    let settle_at = actions
        .iter()
        .position(|a| matches!(a, PasteAction::Settle { .. }))
        .unwrap();
    let first_key_at = actions
        .iter()
        .position(|a| matches!(a, PasteAction::Inject { .. }))
        .unwrap();
    assert!(settle_at < first_key_at);
}

#[test]
fn delay_constants_hold_the_documented_values() {
    assert_eq!(SETTLE_MILLIS, 150);
    assert_eq!(INTER_KEY_MILLIS, 10);
}

#[test]
fn error_messages_name_each_failure() {
    assert_eq!(
        PasteError::Initialization.message(),
        "failed to initialize the input simulator"
    );
    assert_eq!(PasteError::Lookup.message(), "no previous window was found");
    assert_eq!(PasteError::Handle.message(), "the stored window handle is null");
    assert_eq!(
        PasteError::Focus.message(),
        "the system denied the foreground transfer"
    );
    assert_eq!(
        PasteError::Injection {
            step: InjectStep::ModDown,
            code: 2
        }
        .message(),
        "failed to press the modifier key"
    );
    assert_eq!(
        PasteError::Injection {
            step: InjectStep::CharClick,
            code: 2
        }
        .message(),
        "failed to click the character key"
    );
    assert_eq!(
        PasteError::Injection {
            step: InjectStep::ModUp,
            code: 2
        }
        .message(),
        "failed to release the modifier key"
    );
}
