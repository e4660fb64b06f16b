use led_matrix_host::{ActivationEnd, Lifecycle, LifecycleEvent, OutOfTurn};

const ALL_EVENTS: [LifecycleEvent; 7] = [
    LifecycleEvent::PluginSelected { plugin: 9 },
    LifecycleEvent::NoPluginLeft,
    LifecycleEvent::SetupSucceeded,
    LifecycleEvent::SetupFailed,
    LifecycleEvent::UpdateReceived { done: false },
    LifecycleEvent::UpdateReceived { done: true },
    LifecycleEvent::UpdateCancelled,
];

fn refused(state: Lifecycle, event: LifecycleEvent) -> Result<Lifecycle, OutOfTurn> {
    Err(OutOfTurn { state, event })
}

#[test]
fn idle_takes_only_a_selection() {
    let state = Lifecycle::Idle;
    for event in ALL_EVENTS {
        let expected = match event {
            LifecycleEvent::PluginSelected { plugin } => Ok(Lifecycle::Setup { plugin }),
            _ => refused(state, event),
        };
        assert_eq!(state.advance(event), expected);
    }
}

#[test]
fn setup_ends_in_running_or_finished() {
    let state = Lifecycle::Setup { plugin: 4 };
    for event in ALL_EVENTS {
        let expected = match event {
            LifecycleEvent::SetupSucceeded => Ok(Lifecycle::Running { plugin: 4 }),
            LifecycleEvent::SetupFailed => {
                Ok(Lifecycle::Finished { plugin: 4, end: ActivationEnd::SetupFailed })
            }
            _ => refused(state, event),
        };
        assert_eq!(state.advance(event), expected);
    }
}

#[test]
fn running_goes_on_until_done_or_cancelled() {
    let state = Lifecycle::Running { plugin: 4 };
    for event in ALL_EVENTS {
        let expected = match event {
            LifecycleEvent::UpdateReceived { done: false } => Ok(state),
            LifecycleEvent::UpdateReceived { done: true } => {
                Ok(Lifecycle::Finished { plugin: 4, end: ActivationEnd::Completed })
            }
            LifecycleEvent::UpdateCancelled => {
                Ok(Lifecycle::Finished { plugin: 4, end: ActivationEnd::Cancelled })
            }
            _ => refused(state, event),
        };
        assert_eq!(state.advance(event), expected);
    }
}

#[test]
fn finished_leads_to_the_next_plugin_or_to_idle() {
    for end in [ActivationEnd::Completed, ActivationEnd::SetupFailed, ActivationEnd::Cancelled] {
        let state = Lifecycle::Finished { plugin: 4, end };
        for event in ALL_EVENTS {
            let expected = match event {
                LifecycleEvent::PluginSelected { plugin } => Ok(Lifecycle::Setup { plugin }),
                LifecycleEvent::NoPluginLeft => Ok(Lifecycle::Idle),
                _ => refused(state, event),
            };
            assert_eq!(state.advance(event), expected);
        }
    }
}

#[test]
fn running_never_falls_idle_in_one_step() {
    let state = Lifecycle::Running { plugin: 0 };
    for event in ALL_EVENTS {
        assert_ne!(state.advance(event), Ok(Lifecycle::Idle));
    }
}

#[test]
fn no_update_is_taken_after_done() {
    let running = Lifecycle::Running { plugin: 2 };
    let finished = running.advance(LifecycleEvent::UpdateReceived { done: true }).unwrap();
    assert_eq!(finished, Lifecycle::Finished { plugin: 2, end: ActivationEnd::Completed });
    let mut state = finished;
    for event in ALL_EVENTS {
        if matches!(event, LifecycleEvent::PluginSelected { .. }) {
            continue;
        }
        if let Ok(next) = state.advance(event) {
            state = next;
        }
        assert!(state.advance(LifecycleEvent::UpdateReceived { done: false }).is_err());
        assert!(state.advance(LifecycleEvent::UpdateReceived { done: true }).is_err());
    }
    assert_eq!(state, Lifecycle::Idle);
}

#[test]
fn a_whole_activation_in_order() {
    let mut state = Lifecycle::Idle;
    let script = [
        (LifecycleEvent::PluginSelected { plugin: 1 }, Lifecycle::Setup { plugin: 1 }),
        (LifecycleEvent::SetupSucceeded, Lifecycle::Running { plugin: 1 }),
        (LifecycleEvent::UpdateReceived { done: false }, Lifecycle::Running { plugin: 1 }),
        (LifecycleEvent::UpdateReceived { done: false }, Lifecycle::Running { plugin: 1 }),
        (
            LifecycleEvent::UpdateReceived { done: true },
            Lifecycle::Finished { plugin: 1, end: ActivationEnd::Completed },
        ),
        (LifecycleEvent::PluginSelected { plugin: 2 }, Lifecycle::Setup { plugin: 2 }),
        (
            LifecycleEvent::SetupFailed,
            Lifecycle::Finished { plugin: 2, end: ActivationEnd::SetupFailed },
        ),
        (LifecycleEvent::NoPluginLeft, Lifecycle::Idle),
    ];
    for (event, expected) in script {
        state = state.advance(event).unwrap();
        assert_eq!(state, expected);
    }
}
