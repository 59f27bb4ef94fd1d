use vstd::prelude::*;

use crate::detect::{detect, motion_detected, Config};
use crate::frame::Frame;

verus! {

/// What the device driver must do next: capture (and decode) one fresh
/// frame, or run the alarm sequence to completion.
#[derive(Clone, Copy, Debug, PartialEq, Eq, Structural)]
pub enum Action {
    Capture,
    SoundAlarm,
}

/// What the device driver reports back: a freshly captured frame, or the
/// end of an alarm sequence.
pub enum Event {
    FrameReady(Frame),
    AlarmFinished,
}

/// Phase of the control loop. `Idle` waits for a frame to serve as the
/// baseline; `Scanning` retains the baseline frame of the steady-state
/// comparison; `Alarming` waits for the alarm sequence to finish.
pub enum ControllerState {
    Idle,
    Scanning(Frame),
    Alarming,
}

impl ControllerState {
    /// A retained baseline frame is always well formed.
    pub open spec fn wf(self) -> bool {
        self matches ControllerState::Scanning(f) ==> f@.wf()
    }
}

/// The control loop's decisions: from phase and event to next phase and
/// next action. The driver performs the actions; the controller never
/// touches a device.
pub struct Controller {
    pub config: Config,
    pub state: ControllerState,
}

impl Controller {
    pub open spec fn wf(self) -> bool {
        self.config.wf() && self.state.wf()
    }

    /// Which events the controller is prepared for: a well-formed frame
    /// while idle or scanning — of the retained frame's dimensions while
    /// scanning, as all frames come from one fixed camera configuration —
    /// and the end of the alarm while alarming.
    pub open spec fn accepts(self, event: Event) -> bool {
        match self.state {
            ControllerState::Idle => event matches Event::FrameReady(f) && f@.wf(),
            ControllerState::Scanning(p) => event matches Event::FrameReady(f) && f@.wf()
                && f@.same_dims(p@),
            ControllerState::Alarming => event is AlarmFinished,
        }
    }

    /// A fresh controller: idle, waiting for the driver to capture the
    /// first baseline frame.
    pub fn new(config: Config) -> (r: Controller)
        requires
            config.wf(),
        ensures
            r.config == config,
            r.state is Idle,
            r.wf(),
    {
        Controller { config, state: ControllerState::Idle }
    }

    /// Advance the control loop by one event.
    ///
    /// Idle plus a frame: the frame becomes the baseline and scanning
    /// begins. Scanning plus a frame: the new frame is compared against the
    /// baseline; on motion the controller starts alarming and both frames
    /// are dropped, otherwise the new frame replaces the baseline. Alarming
    /// plus the end of the alarm: back to idle, so the next capture — a
    /// fresh frame, not the one that triggered the alarm — becomes the new
    /// baseline.
    pub fn step(&mut self, event: Event) -> (action: Action)
        requires
            old(self).wf(),
            old(self).accepts(event),
        ensures
            final(self).wf(),
            final(self).config == old(self).config,
            old(self).state is Idle ==> (event matches Event::FrameReady(f) ==> (final(self).state
                matches ControllerState::Scanning(g) && g@ == f@ && action is Capture)),
            old(self).state matches ControllerState::Scanning(p) ==> (event matches
                Event::FrameReady(f) ==> {
                &&& motion_detected(p@, f@, old(self).config) ==> final(self).state is Alarming
                    && action is SoundAlarm
                &&& !motion_detected(p@, f@, old(self).config) ==> (final(self).state matches
                    ControllerState::Scanning(g) && g@ == f@ && action is Capture)
            }),
            old(self).state is Alarming ==> final(self).state is Idle && action is Capture,
    {
        let mut taken = ControllerState::Idle;
        core::mem::swap(&mut taken, &mut self.state);
        match (taken, event) {
            (ControllerState::Idle, Event::FrameReady(f)) => {
                self.state = ControllerState::Scanning(f);
                Action::Capture
            },
            (ControllerState::Scanning(p), Event::FrameReady(f)) => {
                let result = detect(
                    &p,
                    &f,
                    self.config.channel_threshold,
                    self.config.aggregate_threshold,
                );
                if result.detected {
                    self.state = ControllerState::Alarming;
                    Action::SoundAlarm
                } else {
                    self.state = ControllerState::Scanning(f);
                    Action::Capture
                }
            },
            (ControllerState::Alarming, Event::AlarmFinished) => {
                self.state = ControllerState::Idle;
                Action::Capture
            },
            (taken, _) => {
                // unreachable: `accepts` pairs each phase with its one event
                self.state = taken;
                Action::Capture
            },
        }
    }
}

} // verus!
