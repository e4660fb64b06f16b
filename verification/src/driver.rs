//! The decisions of the host's driver loop.
//!
//! The loop itself (calling the plugin, handing frames to the rendering
//! backend and log lines to the logging sink, reading the clock, sleeping)
//! belongs to the caller. A `Driver` tells it what to do next: it holds the
//! session's configuration and the lifecycle state, takes what the plugin
//! returned, and answers with what is to be rendered and logged and with
//! whether the plugin is to be polled again.

use vstd::prelude::*;
use crate::config::MatrixConfiguration;
use crate::lifecycle::{ActivationEnd, Lifecycle, LifecycleEvent, OutOfTurn};
use crate::update::{log_view, Pixel, PluginUpdate, PluginUpdateView};
use crate::wiring::{FrameError, Wiring, WiringAxis};

verus! {

/// What the host does with one update of the active plugin.
#[derive(Debug)]
pub struct TickOutcome {
    /// The plugin that the update came from, and that its log lines are
    /// attributed to.
    pub plugin: usize,
    /// The pixels to hand to the rendering backend, in strip order; or, for
    /// a frame of the wrong dimensions, the violation to log in place of
    /// rendering.
    pub frame: Result<Vec<Pixel>, FrameError>,
    /// The plugin's log lines for the logging sink, if it sent any.
    pub log_message: Option<Vec<String>>,
    /// Whether this was the plugin's last update. If not, the host sleeps
    /// out the tick and polls the plugin again.
    pub finished: bool,
}

/// A tick's outcome as plain mathematical data.
pub struct TickOutcomeView {
    pub plugin: usize,
    pub frame: Result<Seq<Pixel>, FrameError>,
    pub log_message: Option<Seq<Seq<char>>>,
    pub finished: bool,
}

/// A mapped frame, or its refusal, as plain data.
pub open spec fn frame_result_view(frame: Result<Vec<Pixel>, FrameError>) -> Result<
    Seq<Pixel>,
    FrameError,
> {
    match frame {
        Ok(buffer) => Ok(buffer@),
        Err(error) => Err(error),
    }
}

impl View for TickOutcome {
    type V = TickOutcomeView;

    open spec fn view(&self) -> TickOutcomeView {
        TickOutcomeView {
            plugin: self.plugin,
            frame: frame_result_view(self.frame),
            log_message: log_view(self.log_message),
            finished: self.finished,
        }
    }
}

/// What an update of plugin `plugin` comes to on a matrix wired as `wiring`:
/// its frame is mapped or turned away, its log lines are passed on as they
/// are, and its `done` flag ends the activation.
pub open spec fn tick_outcome(wiring: Wiring, plugin: usize, update: PluginUpdateView)
    -> TickOutcomeView {
    TickOutcomeView {
        plugin,
        frame: wiring.mapped(update.state),
        log_message: update.log_message,
        finished: update.done,
    }
}

/// The state of one driver session: its configuration, fixed for the
/// session, and the lifecycle of the plugin it is busy with.
#[derive(Clone, Copy, Debug)]
pub struct Driver {
    config: MatrixConfiguration,
    axis: WiringAxis,
    state: Lifecycle,
}

impl Driver {
    /// The configuration that every plugin of the session is set up with.
    pub closed spec fn spec_config(&self) -> MatrixConfiguration {
        self.config
    }

    /// The axis along which the matrix's strip is laid out.
    pub closed spec fn spec_axis(&self) -> WiringAxis {
        self.axis
    }

    /// Where the session stands in the active plugin's lifecycle.
    pub closed spec fn spec_state(&self) -> Lifecycle {
        self.state
    }

    /// The wiring that frames are mapped by.
    pub open spec fn spec_wiring(&self) -> Wiring {
        Wiring {
            width: self.spec_config().width,
            height: self.spec_config().height,
            serpentine: self.spec_config().serpentine,
            axis: self.spec_axis(),
        }
    }

    /// What the session is after `event`: with the state that follows where
    /// the state takes the event, and as it was where it does not.
    pub open spec fn spec_after(&self, event: LifecycleEvent, after: Driver) -> bool {
        &&& after.spec_config() == self.spec_config()
        &&& after.spec_axis() == self.spec_axis()
        &&& after.spec_state() == match self.spec_state().spec_advance(event) {
            Some(next) => next,
            None => self.spec_state(),
        }
    }

    /// A session for a matrix described by `config` and wired along `axis`,
    /// with no plugin active.
    pub fn new(config: MatrixConfiguration, axis: WiringAxis) -> (driver: Driver)
        ensures
            driver.config() == config,
            driver.axis() == axis,
            driver.state() == Lifecycle::Idle,
    {
        Driver { config, axis, state: Lifecycle::Idle }
    }

    /// The configuration that every plugin of the session is set up with.
    #[verifier::when_used_as_spec(spec_config)]
    pub fn config(&self) -> (config: MatrixConfiguration)
        ensures
            config == self.config(),
    {
        self.config
    }

    /// The axis along which the matrix's strip is laid out.
    #[verifier::when_used_as_spec(spec_axis)]
    pub fn axis(&self) -> (axis: WiringAxis)
        ensures
            axis == self.axis(),
    {
        self.axis
    }

    /// Where the session stands in the active plugin's lifecycle.
    #[verifier::when_used_as_spec(spec_state)]
    pub fn state(&self) -> (state: Lifecycle)
        ensures
            state == self.state(),
    {
        self.state
    }

    /// The wiring that frames are mapped by.
    #[verifier::when_used_as_spec(spec_wiring)]
    pub fn wiring(&self) -> (wiring: Wiring)
        ensures
            wiring == self.wiring(),
    {
        Wiring::new(&self.config, self.axis)
    }

    /// Takes the session's lifecycle one step on, if the state takes the
    /// event.
    fn apply(&mut self, event: LifecycleEvent) -> (result: Result<Lifecycle, OutOfTurn>)
        ensures
            old(self).spec_after(event, *final(self)),
            match result {
                Ok(next) => old(self).state().spec_advance(event) == Some(next),
                Err(refusal) => old(self).state().spec_advance(event) is None && refusal == (
                OutOfTurn { state: old(self).state(), event }),
            },
    {
        let result = self.state.advance(event);
        match result {
            Ok(next) => {
                self.state = next;
            },
            Err(_) => {},
        }
        result
    }

    /// Activates `plugin`: the session enters `Setup`, and the configuration
    /// to call the plugin's setup with is returned. Taken when no plugin is
    /// active or the last activation has finished.
    pub fn select_plugin(&mut self, plugin: usize) -> (result: Result<
        MatrixConfiguration,
        OutOfTurn,
    >)
        ensures
            old(self).spec_after(LifecycleEvent::PluginSelected { plugin }, *final(self)),
            match result {
                Ok(config) => {
                    &&& old(self).state() is Idle || old(self).state() is Finished
                    &&& final(self).state() == Lifecycle::Setup { plugin }
                    &&& config == old(self).config()
                },
                Err(refusal) => {
                    &&& old(self).state() is Setup || old(self).state() is Running
                    &&& refusal == OutOfTurn {
                        state: old(self).state(),
                        event: LifecycleEvent::PluginSelected { plugin },
                    }
                },
            },
    {
        match self.apply(LifecycleEvent::PluginSelected { plugin }) {
            Ok(_) => Ok(self.config),
            Err(refusal) => Err(refusal),
        }
    }

    /// Takes note of how the active plugin's setup ended. After a setup
    /// that succeeded the plugin runs; after one that failed its activation
    /// is over, and the host goes on as after any other.
    pub fn finish_setup(&mut self, succeeded: bool) -> (result: Result<Lifecycle, OutOfTurn>)
        ensures
            old(self).spec_after(Self::setup_event(succeeded), *final(self)),
            match result {
                Ok(next) => {
                    &&& old(self).state() is Setup
                    &&& next == final(self).state()
                    &&& Some(next) == old(self).state().spec_advance(
                        Self::setup_event(succeeded),
                    )
                },
                Err(refusal) => {
                    &&& !(old(self).state() is Setup)
                    &&& refusal == OutOfTurn {
                        state: old(self).state(),
                        event: Self::setup_event(succeeded),
                    }
                },
            },
    {
        let event = if succeeded {
            LifecycleEvent::SetupSucceeded
        } else {
            LifecycleEvent::SetupFailed
        };
        self.apply(event)
    }

    /// The event that a setup's end is to the lifecycle.
    pub open spec fn setup_event(succeeded: bool) -> LifecycleEvent {
        if succeeded {
            LifecycleEvent::SetupSucceeded
        } else {
            LifecycleEvent::SetupFailed
        }
    }

    /// Takes one update of the running plugin and says what to do with it.
    ///
    /// The frame is mapped to strip order, or turned away if it has not the
    /// matrix's dimensions; log lines are passed on untouched; and an update
    /// that says `done` finishes the activation, whether or not its frame
    /// could be shown. An update that comes while no plugin is running is
    /// refused, and nothing of it is rendered or logged.
    pub fn process_update(&mut self, update: PluginUpdate) -> (result: Result<
        TickOutcome,
        OutOfTurn,
    >)
        ensures
            old(self).spec_after(
                LifecycleEvent::UpdateReceived { done: update.done },
                *final(self),
            ),
            match result {
                Ok(outcome) => {
                    &&& old(self).state() matches Lifecycle::Running { plugin }
                    &&& outcome@ == tick_outcome(old(self).wiring(), plugin, update@)
                },
                Err(refusal) => {
                    &&& !(old(self).state() is Running)
                    &&& refusal == OutOfTurn {
                        state: old(self).state(),
                        event: LifecycleEvent::UpdateReceived { done: update.done },
                    }
                },
            },
    {
        let PluginUpdate { state, done, log_message } = update;
        let event = LifecycleEvent::UpdateReceived { done };
        let plugin = match self.state {
            Lifecycle::Running { plugin } => plugin,
            _ => {
                return Err(OutOfTurn { state: self.state, event });
            },
        };
        let frame = self.wiring().map_frame(&state);
        self.state = if done {
            Lifecycle::Finished { plugin, end: ActivationEnd::Completed }
        } else {
            Lifecycle::Running { plugin }
        };
        Ok(TickOutcome { plugin, frame, log_message, finished: done })
    }

    /// Gives up on the running plugin, whose update did not come in time:
    /// its activation is over.
    pub fn cancel_update(&mut self) -> (result: Result<Lifecycle, OutOfTurn>)
        ensures
            old(self).spec_after(LifecycleEvent::UpdateCancelled, *final(self)),
            match result {
                Ok(next) => {
                    &&& old(self).state() is Running
                    &&& next == final(self).state()
                    &&& Some(next) == old(self).state().spec_advance(
                        LifecycleEvent::UpdateCancelled,
                    )
                },
                Err(refusal) => {
                    &&& !(old(self).state() is Running)
                    &&& refusal == OutOfTurn {
                        state: old(self).state(),
                        event: LifecycleEvent::UpdateCancelled,
                    }
                },
            },
    {
        self.apply(LifecycleEvent::UpdateCancelled)
    }

    /// Falls idle after the last activation, when no plugin is left.
    pub fn stop(&mut self) -> (result: Result<(), OutOfTurn>)
        ensures
            old(self).spec_after(LifecycleEvent::NoPluginLeft, *final(self)),
            match result {
                Ok(()) => {
                    &&& old(self).state() is Finished
                    &&& final(self).state() == Lifecycle::Idle
                },
                Err(refusal) => {
                    &&& !(old(self).state() is Finished)
                    &&& refusal == OutOfTurn {
                        state: old(self).state(),
                        event: LifecycleEvent::NoPluginLeft,
                    }
                },
            },
    {
        match self.apply(LifecycleEvent::NoPluginLeft) {
            Ok(_) => Ok(()),
            Err(refusal) => Err(refusal),
        }
    }

    /// How long to sleep before polling the running plugin again, in
    /// nanoseconds, when `elapsed_nanos` have passed since the tick began.
    pub fn sleep_nanos(&self, elapsed_nanos: u64) -> (sleep: u64)
        ensures
            sleep == self.config().spec_sleep_nanos(elapsed_nanos as nat),
    {
        self.config.sleep_nanos(elapsed_nanos)
    }
}


impl Driver {
    /// A frame of the wrong dimensions does not reach the rendering
    /// backend: the tick's outcome holds the violation and no pixels. Unless
    /// the same update says `done`, the plugin stays running and is polled
    /// again on the next tick.
    pub proof fn lemma_mismatched_frame_is_not_rendered(
        &self,
        after: Driver,
        plugin: usize,
        update: PluginUpdateView,
    )
        requires
            self.state() == (Lifecycle::Running { plugin }),
            self.spec_after(LifecycleEvent::UpdateReceived { done: update.done }, after),
            !self.wiring().frame_matches(update.state),
        ensures
            tick_outcome(self.wiring(), plugin, update).frame is Err,
            !update.done ==> after.state() == (Lifecycle::Running { plugin }),
    {
        self.wiring().lemma_mapped_iff_frame_matches(update.state);
    }

    /// The update that says `done` has its frame rendered like any other,
    /// once, and ends the activation: the session is `Finished`, and in that
    /// state it takes no further update.
    pub proof fn lemma_done_renders_then_finishes(
        &self,
        after: Driver,
        plugin: usize,
        update: PluginUpdateView,
        later_done: bool,
    )
        requires
            self.state() == (Lifecycle::Running { plugin }),
            self.spec_after(LifecycleEvent::UpdateReceived { done: update.done }, after),
            update.done,
            self.wiring().frame_matches(update.state),
        ensures
            tick_outcome(self.wiring(), plugin, update).frame == Ok::<Seq<Pixel>, FrameError>(
                self.wiring().physical_order(update.state),
            ),
            tick_outcome(self.wiring(), plugin, update).finished,
            after.state() == (Lifecycle::Finished { plugin, end: ActivationEnd::Completed }),
            after.state().spec_advance(LifecycleEvent::UpdateReceived { done: later_done })
                is None,
    {
        self.wiring().lemma_mapped_iff_frame_matches(update.state);
    }

    /// Log lines reach the sink as the plugin gave them: the same lines in
    /// the same order, one batch for the tick, and no batch at all for an
    /// update without a log message.
    pub proof fn lemma_log_lines_pass_unchanged(
        wiring: Wiring,
        plugin: usize,
        update: PluginUpdateView,
    )
        ensures
            tick_outcome(wiring, plugin, update).plugin == plugin,
            tick_outcome(wiring, plugin, update).log_message == update.log_message,
            update.log_message is None ==> tick_outcome(wiring, plugin, update).log_message
                is None,
            update.log_message matches Some(lines) ==> {
                &&& tick_outcome(wiring, plugin, update).log_message matches Some(passed)
                &&& passed.len() == lines.len()
                &&& forall|i: int| 0 <= i < lines.len() ==> passed[i] == lines[i]
            },
    {
    }

    /// A default configuration and a default update are inert: the update's
    /// empty frame fits the empty matrix, maps to no pixels at all, and
    /// carries nothing to log; and the host does not sleep.
    pub proof fn lemma_defaults_are_inert(axis: WiringAxis, plugin: usize, elapsed: nat)
        ensures
            ({
                let config = MatrixConfiguration::spec_default();
                let wiring = Wiring {
                    width: config.width,
                    height: config.height,
                    serpentine: config.serpentine,
                    axis,
                };
                let outcome = tick_outcome(wiring, plugin, PluginUpdate::default_view());
                &&& wiring.frame_matches(PluginUpdate::default_view().state)
                &&& outcome.frame == Ok::<Seq<Pixel>, FrameError>(Seq::empty())
                &&& outcome.log_message is None
                &&& !outcome.finished
                &&& config.spec_sleep_nanos(elapsed) == 0
            }),
    {
        let config = MatrixConfiguration::spec_default();
        let wiring = Wiring {
            width: config.width,
            height: config.height,
            serpentine: config.serpentine,
            axis,
        };
        let grid = PluginUpdate::default_view().state;
        assert(wiring.frame_matches(grid));
        assert(wiring.physical_order(grid) =~= Seq::empty());
    }
}

} // verus!
