//! The lifecycle of a plugin session.
//!
//! A session is made by activating the plugin with an audio configuration.
//! It is then started, processes one period after another, is stopped and is
//! deactivated: `Idle`, `Streaming`, `Stopped`, `Deactivated`. The plugin
//! itself is driven by the caller; a session takes what the plugin answered
//! and says where the lifecycle stands and what the caller owes next.

use vstd::prelude::*;

verus! {

/// The smallest number of frames that a period may hold.
pub const PLUGIN_CONFIG_MIN_FRAMES: u32 = 1;

/// The largest number of frames that a period may hold.
pub const PLUGIN_CONFIG_MAX_FRAMES: u32 = 4096;

/// What is agreed with the plugin at activation and holds until the session
/// is deactivated.
#[derive(Clone, Copy, Debug, PartialEq, Eq, Structural)]
pub struct AudioConfiguration {
    /// Frames per second.
    pub sample_rate: u32,
    /// The smallest number of frames that a period may hold.
    pub min_frames_count: u32,
    /// The largest number of frames that a period may hold.
    pub max_frames_count: u32,
}

impl AudioConfiguration {
    /// Whether a plugin can be activated with the configuration: both
    /// bounds are at least one frame, and the smaller is not above the
    /// larger.
    pub open spec fn valid(self) -> bool {
        0 < self.min_frames_count <= self.max_frames_count
    }

    /// Whether a plugin can be activated with the configuration.
    pub fn is_valid(&self) -> (valid: bool)
        ensures
            valid == self.valid(),
    {
        0 < self.min_frames_count && self.min_frames_count <= self.max_frames_count
    }

    /// The configuration of this host at the sample rate of the audio
    /// server: periods of 1 to 4096 frames.
    pub fn at_sample_rate(sample_rate: u32) -> (configuration: AudioConfiguration)
        ensures
            configuration == (AudioConfiguration {
                sample_rate,
                min_frames_count: PLUGIN_CONFIG_MIN_FRAMES,
                max_frames_count: PLUGIN_CONFIG_MAX_FRAMES,
            }),
            configuration.valid(),
    {
        AudioConfiguration {
            sample_rate,
            min_frames_count: PLUGIN_CONFIG_MIN_FRAMES,
            max_frames_count: PLUGIN_CONFIG_MAX_FRAMES,
        }
    }
}

/// Where a session stands in its life.
#[derive(Clone, Copy, Debug, PartialEq, Eq, Structural)]
pub enum SessionState {
    /// Activated: the processor exists and has not been started.
    Idle,
    /// Started: the audio callback is live.
    Streaming,
    /// Stopped: this processor processes no more.
    Stopped,
    /// Deactivated: the session is over.
    Deactivated,
}

/// What can go wrong in the life of a session.
#[derive(Clone, Copy, Debug, PartialEq, Eq, Structural)]
pub enum SessionError {
    /// The plugin refused the configuration.
    Activation,
    /// The processor could not begin.
    Start,
    /// The plugin failed while it processed a period.
    Process,
}

/// The lifecycle of a session as a value: what a `PluginSession` is in the
/// eyes of a contract.
pub struct Lifecycle {
    /// Where the session stands.
    pub state: SessionState,
    /// Whether the plugin has failed while it processed a period.
    pub faulted: bool,
    /// What was agreed at activation.
    pub configuration: AudioConfiguration,
}

impl Lifecycle {
    /// The lifecycle that an accepted activation with `configuration` begins.
    pub open spec fn activated(configuration: AudioConfiguration) -> Lifecycle {
        Lifecycle { state: SessionState::Idle, faulted: false, configuration }
    }

    /// Whether the session may be started: it is `Idle`.
    pub open spec fn can_start(self) -> bool {
        self.state == SessionState::Idle
    }

    /// Whether a period may be processed: the session is `Streaming` and the
    /// plugin has not failed. A failure is final for the stream.
    pub open spec fn can_process(self) -> bool {
        self.state == SessionState::Streaming && !self.faulted
    }

    /// Whether the session may be stopped: it is `Streaming`, failed or not.
    pub open spec fn can_stop(self) -> bool {
        self.state == SessionState::Streaming
    }

    /// Whether the session may be deactivated: it is activated and does not
    /// stream.
    pub open spec fn can_deactivate(self) -> bool {
        self.state == SessionState::Idle || self.state == SessionState::Stopped
    }

    /// The lifecycle after an attempt to start: `Streaming` where the
    /// processor began, unchanged where it did not.
    pub open spec fn after_start(self, started: bool) -> Lifecycle {
        if started {
            Lifecycle { state: SessionState::Streaming, ..self }
        } else {
            self
        }
    }

    /// The lifecycle after a period: unchanged where the plugin processed
    /// it, marked as failed where it did not.
    pub open spec fn after_process(self, processed: bool) -> Lifecycle {
        if processed {
            self
        } else {
            Lifecycle { faulted: true, ..self }
        }
    }

    /// The lifecycle after the processor was stopped.
    pub open spec fn after_stop(self) -> Lifecycle {
        Lifecycle { state: SessionState::Stopped, ..self }
    }

    /// The lifecycle after the session was deactivated.
    pub open spec fn after_deactivate(self) -> Lifecycle {
        Lifecycle { state: SessionState::Deactivated, ..self }
    }
}

/// After the plugin has failed in a period, no further period is processed,
/// and the session can still be stopped and then deactivated.
pub proof fn teardown_follows_a_failure(session: Lifecycle)
    requires
        session.can_process(),
    ensures
        !session.after_process(false).can_process(),
        session.after_process(false).can_stop(),
        session.after_process(false).after_stop().can_deactivate(),
        session.after_process(false).after_stop().after_deactivate().state
            == SessionState::Deactivated,
{
}

/// What was agreed at activation holds through every step of a session.
pub proof fn configuration_is_fixed(session: Lifecycle, answer: bool)
    ensures
        session.after_start(answer).configuration == session.configuration,
        session.after_process(answer).configuration == session.configuration,
        session.after_stop().configuration == session.configuration,
        session.after_deactivate().configuration == session.configuration,
{
}

/// One activated plugin, from activation to deactivation.
#[derive(Clone, Copy, Debug)]
pub struct PluginSession {
    state: SessionState,
    faulted: bool,
    configuration: AudioConfiguration,
}

impl View for PluginSession {
    type V = Lifecycle;

    closed spec fn view(&self) -> Lifecycle {
        Lifecycle {
            state: self.state,
            faulted: self.faulted,
            configuration: self.configuration,
        }
    }
}

impl PluginSession {
    /// Activates the plugin. `accepted` is the plugin's answer to
    /// `configuration`: the session begins `Idle` where it accepted, and
    /// there is none where it refused. A configuration that is not valid is
    /// not offered to a plugin.
    pub fn activate(configuration: AudioConfiguration, accepted: bool) -> (session: Result<
        PluginSession,
        SessionError,
    >)
        requires
            configuration.valid(),
        ensures
            accepted ==> session.is_ok() && session.unwrap()@ == Lifecycle::activated(
                configuration,
            ),
            !accepted ==> session.is_err() && session.unwrap_err() == SessionError::Activation,
    {
        if accepted {
            Ok(PluginSession { state: SessionState::Idle, faulted: false, configuration })
        } else {
            Err(SessionError::Activation)
        }
    }

    /// Where the session stands.
    pub fn state(&self) -> (state: SessionState)
        ensures
            state == self@.state,
    {
        self.state
    }

    /// Whether the plugin has failed while it processed a period.
    pub fn has_faulted(&self) -> (faulted: bool)
        ensures
            faulted == self@.faulted,
    {
        self.faulted
    }

    /// What was agreed at activation.
    pub fn configuration(&self) -> (configuration: AudioConfiguration)
        ensures
            configuration == self@.configuration,
    {
        self.configuration
    }

    /// Whether the session may be started.
    pub fn can_start(&self) -> (may: bool)
        ensures
            may == self@.can_start(),
    {
        self.state == SessionState::Idle
    }

    /// Whether a period may be processed.
    pub fn can_process(&self) -> (may: bool)
        ensures
            may == self@.can_process(),
    {
        self.state == SessionState::Streaming && !self.faulted
    }

    /// Whether the session may be stopped.
    pub fn can_stop(&self) -> (may: bool)
        ensures
            may == self@.can_stop(),
    {
        self.state == SessionState::Streaming
    }

    /// Whether the session may be deactivated.
    pub fn can_deactivate(&self) -> (may: bool)
        ensures
            may == self@.can_deactivate(),
    {
        self.state == SessionState::Idle || self.state == SessionState::Stopped
    }

    /// Starts the processor. `started` says whether it began: the session
    /// then streams; else it stays `Idle` and the error is `Start`.
    pub fn start_processing(&mut self, started: bool) -> (result: Result<(), SessionError>)
        requires
            old(self)@.can_start(),
        ensures
            final(self)@ == old(self)@.after_start(started),
            started ==> result == Ok::<(), SessionError>(()),
            !started ==> result == Err::<(), SessionError>(SessionError::Start),
    {
        if started {
            self.state = SessionState::Streaming;
            Ok(())
        } else {
            Err(SessionError::Start)
        }
    }

    /// Takes in the outcome of one period. `processed` says whether the
    /// plugin processed it. Where it did, the caller writes the output and
    /// goes on; where it failed, the error is `Process`, the session is
    /// marked, and the caller has the stream stopped.
    pub fn process(&mut self, processed: bool) -> (result: Result<(), SessionError>)
        requires
            old(self)@.can_process(),
        ensures
            final(self)@ == old(self)@.after_process(processed),
            processed ==> result == Ok::<(), SessionError>(()),
            !processed ==> result == Err::<(), SessionError>(SessionError::Process),
    {
        if processed {
            Ok(())
        } else {
            self.faulted = true;
            Err(SessionError::Process)
        }
    }

    /// Stops the processor, whether or not the plugin has failed.
    pub fn stop_processing(&mut self)
        requires
            old(self)@.can_stop(),
        ensures
            final(self)@ == old(self)@.after_stop(),
    {
        self.state = SessionState::Stopped;
    }

    /// Ends the session.
    pub fn deactivate(&mut self)
        requires
            old(self)@.can_deactivate(),
        ensures
            final(self)@ == old(self)@.after_deactivate(),
    {
        self.state = SessionState::Deactivated;
    }
}

} // verus!
