//! The life of a plugin on the host: selected, set up, polled, finished.
//!
//! One plugin is active at a time. An activation starts when the host
//! selects a plugin and ends in `Finished`, whatever happened on the way:
//! the plugin said it was done, its setup failed, or the host gave up
//! waiting for an update. Only from `Finished` does the host go on to the
//! next plugin, or back to `Idle` when there is none.

use vstd::prelude::*;

verus! {

/// How an activation came to its end.
#[derive(Clone, Copy, Debug, PartialEq, Eq, Structural)]
pub enum ActivationEnd {
    /// The plugin reported that it was done.
    Completed,
    /// The plugin's setup failed; it was never polled.
    SetupFailed,
    /// The host gave up waiting for the plugin's update.
    Cancelled,
}

/// Where the host stands with the plugin named in the state.
#[derive(Clone, Copy, Debug, PartialEq, Eq, Structural)]
pub enum Lifecycle {
    /// No plugin is active.
    Idle,
    /// The plugin was handed the configuration and is initializing.
    Setup { plugin: usize },
    /// The plugin is polled for an update on every tick.
    Running { plugin: usize },
    /// The plugin's activation is over.
    Finished { plugin: usize, end: ActivationEnd },
}

/// What can happen to the host between two states.
#[derive(Clone, Copy, Debug, PartialEq, Eq, Structural)]
pub enum LifecycleEvent {
    /// The host selected `plugin` to be activated next.
    PluginSelected { plugin: usize },
    /// The host has no further plugin to activate.
    NoPluginLeft,
    /// The plugin's setup returned without error.
    SetupSucceeded,
    /// The plugin's setup returned an error.
    SetupFailed,
    /// The plugin returned an update, with this value of its `done` flag.
    UpdateReceived { done: bool },
    /// The host gave up waiting for the plugin's update.
    UpdateCancelled,
}

/// An event that came in a state which does not take it. The state is left
/// as it was.
#[derive(Clone, Copy, Debug, PartialEq, Eq, Structural)]
pub struct OutOfTurn {
    pub state: Lifecycle,
    pub event: LifecycleEvent,
}

impl Lifecycle {
    /// The plugin that the state names, if it names one.
    pub open spec fn plugin(&self) -> Option<usize> {
        match *self {
            Lifecycle::Idle => None,
            Lifecycle::Setup { plugin } => Some(plugin),
            Lifecycle::Running { plugin } => Some(plugin),
            Lifecycle::Finished { plugin, .. } => Some(plugin),
        }
    }

    /// The state that follows `self` on `event`, or `None` where `self` does
    /// not take `event`.
    pub open spec fn spec_advance(&self, event: LifecycleEvent) -> Option<Lifecycle> {
        match (*self, event) {
            (Lifecycle::Idle, LifecycleEvent::PluginSelected { plugin }) => Some(
                Lifecycle::Setup { plugin },
            ),
            (Lifecycle::Finished { .. }, LifecycleEvent::PluginSelected { plugin }) => Some(
                Lifecycle::Setup { plugin },
            ),
            (Lifecycle::Finished { .. }, LifecycleEvent::NoPluginLeft) => Some(Lifecycle::Idle),
            (Lifecycle::Setup { plugin }, LifecycleEvent::SetupSucceeded) => Some(
                Lifecycle::Running { plugin },
            ),
            (Lifecycle::Setup { plugin }, LifecycleEvent::SetupFailed) => Some(
                Lifecycle::Finished { plugin, end: ActivationEnd::SetupFailed },
            ),
            (Lifecycle::Running { plugin }, LifecycleEvent::UpdateReceived { done }) => Some(
                if done {
                    Lifecycle::Finished { plugin, end: ActivationEnd::Completed }
                } else {
                    Lifecycle::Running { plugin }
                },
            ),
            (Lifecycle::Running { plugin }, LifecycleEvent::UpdateCancelled) => Some(
                Lifecycle::Finished { plugin, end: ActivationEnd::Cancelled },
            ),
            _ => None,
        }
    }

    /// The state that `self` is in after `events` have come in, one after
    /// the other. An event that the state of the moment does not take leaves
    /// that state as it is.
    pub open spec fn spec_run(&self, events: Seq<LifecycleEvent>) -> Lifecycle
        decreases events.len(),
    {
        if events.len() == 0 {
            *self
        } else {
            let before = self.spec_run(events.drop_last());
            match before.spec_advance(events.last()) {
                Some(next) => next,
                None => before,
            }
        }
    }

    /// Takes the lifecycle one step on: the state that follows on `event`,
    /// or the refusal of an event that the state does not take.
    pub fn advance(&self, event: LifecycleEvent) -> (result: Result<Lifecycle, OutOfTurn>)
        ensures
            match result {
                Ok(next) => self.spec_advance(event) == Some(next),
                Err(refusal) => self.spec_advance(event) is None && refusal == (OutOfTurn {
                    state: *self,
                    event,
                }),
            },
    {
        let refusal = OutOfTurn { state: *self, event };
        match *self {
            Lifecycle::Idle => match event {
                LifecycleEvent::PluginSelected { plugin } => Ok(Lifecycle::Setup { plugin }),
                _ => Err(refusal),
            },
            Lifecycle::Setup { plugin } => match event {
                LifecycleEvent::SetupSucceeded => Ok(Lifecycle::Running { plugin }),
                LifecycleEvent::SetupFailed => Ok(
                    Lifecycle::Finished { plugin, end: ActivationEnd::SetupFailed },
                ),
                _ => Err(refusal),
            },
            Lifecycle::Running { plugin } => match event {
                LifecycleEvent::UpdateReceived { done } => {
                    if done {
                        Ok(Lifecycle::Finished { plugin, end: ActivationEnd::Completed })
                    } else {
                        Ok(Lifecycle::Running { plugin })
                    }
                },
                LifecycleEvent::UpdateCancelled => Ok(
                    Lifecycle::Finished { plugin, end: ActivationEnd::Cancelled },
                ),
                _ => Err(refusal),
            },
            Lifecycle::Finished { .. } => match event {
                LifecycleEvent::PluginSelected { plugin } => Ok(Lifecycle::Setup { plugin }),
                LifecycleEvent::NoPluginLeft => Ok(Lifecycle::Idle),
                _ => Err(refusal),
            },
        }
    }

    /// A running plugin is not taken off the matrix: whatever happens, it
    /// keeps running or its activation finishes.
    pub proof fn lemma_running_leaves_through_finished(&self, event: LifecycleEvent)
        requires
            *self is Running,
        ensures
            match self.spec_advance(event) {
                Some(next) => next.plugin() == self.plugin() && (next is Running
                    || next is Finished),
                None => true,
            },
    {
    }

    /// A plugin is polled only while it runs: in no other state is an update
    /// taken.
    pub proof fn lemma_update_taken_only_while_running(&self, done: bool)
        ensures
            self.spec_advance(LifecycleEvent::UpdateReceived { done }) is Some <==> *self
                is Running,
    {
    }

    /// The update that says `done` ends the activation, and nothing that
    /// follows starts the plugin running again short of a new setup.
    pub proof fn lemma_done_ends_activation(&self, later: LifecycleEvent)
        requires
            *self is Running,
        ensures
            self.spec_advance(LifecycleEvent::UpdateReceived { done: true }) == Some(
                Lifecycle::Finished { plugin: self->Running_plugin, end: ActivationEnd::Completed },
            ),
            match (Lifecycle::Finished {
                plugin: self->Running_plugin,
                end: ActivationEnd::Completed,
            }).spec_advance(later) {
                Some(next) => next is Setup || next is Idle,
                None => true,
            },
    {
    }

    /// Once an activation has finished, no update is taken until the host
    /// has selected a plugin anew: whatever else comes in, the session is
    /// finished or idle, and in neither state is a plugin polled.
    pub proof fn lemma_no_update_after_finished(
        &self,
        events: Seq<LifecycleEvent>,
        done: bool,
    )
        requires
            *self is Finished,
            forall|i: int| 0 <= i < events.len() ==> !(#[trigger] events[i] is PluginSelected),
        ensures
            self.spec_run(events) is Finished || self.spec_run(events) is Idle,
            self.spec_run(events).spec_advance(LifecycleEvent::UpdateReceived { done }) is None,
        decreases events.len(),
    {
        if events.len() > 0 {
            self.lemma_no_update_after_finished(events.drop_last(), done);
        }
    }

    /// While a plugin runs, updates that do not say `done` keep it running:
    /// the host does not take the matrix from it in the middle of its
    /// activation.
    pub proof fn lemma_running_until_done(&self, events: Seq<LifecycleEvent>)
        requires
            *self is Running,
            forall|i: int|
                0 <= i < events.len() ==> #[trigger] events[i] == (LifecycleEvent::UpdateReceived {
                    done: false,
                }),
        ensures
            self.spec_run(events) == *self,
        decreases events.len(),
    {
        if events.len() > 0 {
            self.lemma_running_until_done(events.drop_last());
        }
    }

    /// A plugin starts running only out of a setup that succeeded, and goes
    /// on running only on an update that does not say `done`.
    pub proof fn lemma_running_comes_from_setup(&self, event: LifecycleEvent, plugin: usize)
        requires
            self.spec_advance(event) == Some(Lifecycle::Running { plugin }),
        ensures
            (*self == Lifecycle::Setup { plugin } && event == LifecycleEvent::SetupSucceeded) || (
            *self == Lifecycle::Running { plugin } && event == LifecycleEvent::UpdateReceived {
                done: false,
            }),
    {
    }

    /// The host falls idle only when an activation has finished and no
    /// plugin is left.
    pub proof fn lemma_idle_comes_from_finished(&self, event: LifecycleEvent)
        requires
            self.spec_advance(event) == Some(Lifecycle::Idle),
        ensures
            *self is Finished,
            event == LifecycleEvent::NoPluginLeft,
    {
    }
}

} // verus!
