//! The decisions of the closed control loop: when to run an iteration,
//! which frames to take, and which action to dispatch for a prediction.
//!
//! The caller polls frames, talks to the worker and writes the game's input;
//! the session tells it what to do at each point and keeps the counts.
use vstd::prelude::*;
use crate::controls::{ControlMapper, GameAction, GamepadState, actions_spec, actions_view};

verus! {

/// Iterations of the loop when no budget is given.
pub const DEFAULT_MAX_STEPS: u32 = 60;

/// Milliseconds of sleep at the start of each iteration.
pub const POLL_INTERVAL_MS: u64 = 100;

/// The state of one control session.
pub struct ControlSession {
    pub mapper: ControlMapper,
    /// The iteration budget.
    pub max_steps: u32,
    /// Sleep at the start of each iteration.
    pub poll_interval_ms: u64,
    /// Iterations begun so far.
    pub step: u32,
    /// The highest frame consumed; frames restart at zero in each session.
    pub last_frame: u32,
    pub frames_observed: u32,
    pub actions_dispatched: u32,
    pub last_action: Option<GameAction>,
    /// A frame may still be taken in the current iteration.
    pub frame_open: bool,
    /// A frame was taken and its prediction has not been settled.
    pub awaiting_prediction: bool,
    pub finished: bool,
}

fn copy_action(a: &GameAction) -> (r: GameAction)
    ensures
        r@ == a@,
{
    match a {
        GameAction::Move(d) => GameAction::Move(*d),
        GameAction::Look { x, y } => GameAction::Look { x: *x, y: *y },
        GameAction::Jump => GameAction::Jump,
        GameAction::Attack => GameAction::Attack,
        GameAction::Interact => GameAction::Interact,
        GameAction::Sprint(b) => GameAction::Sprint(*b),
        GameAction::Bound(s) => GameAction::Bound(s.clone()),
    }
}

impl ControlSession {
    /// Each iteration takes at most one frame and each frame gives at most
    /// one action, and no iteration runs past the budget.
    pub open spec fn wf(&self) -> bool {
        &&& self.frames_observed + (if self.frame_open { 1int } else { 0int }) <= self.step
        &&& self.actions_dispatched + (if self.awaiting_prediction { 1int } else { 0int })
            <= self.frames_observed
        &&& self.step <= self.max_steps
    }

    pub fn new(mapper: ControlMapper, max_steps: u32, poll_interval_ms: u64) -> (r: Self)
        ensures
            r.wf(),
            r.mapper == mapper,
            r.max_steps == max_steps,
            r.poll_interval_ms == poll_interval_ms,
            r.step == 0,
            r.last_frame == 0,
            r.frames_observed == 0,
            r.actions_dispatched == 0,
            r.last_action is None,
            !r.frame_open,
            !r.awaiting_prediction,
            !r.finished,
    {
        ControlSession {
            mapper,
            max_steps,
            poll_interval_ms,
            step: 0,
            last_frame: 0,
            frames_observed: 0,
            actions_dispatched: 0,
            last_action: None,
            frame_open: false,
            awaiting_prediction: false,
            finished: false,
        }
    }

    /// Decides whether another iteration runs: not once the session has
    /// finished, the game has exited or the budget is spent (the session
    /// then finishes). A prediction left unsettled is dropped.
    pub fn begin_step(&mut self, game_exited: bool) -> (r: bool)
        requires
            old(self).wf(),
        ensures
            final(self).wf(),
            r == (!old(self).finished && !game_exited && old(self).step < old(self).max_steps),
            r ==> final(self).step == old(self).step + 1 && final(self).frame_open
                && !final(self).awaiting_prediction && !final(self).finished,
            !r ==> final(self).finished && final(self).step == old(self).step
                && !final(self).frame_open && !final(self).awaiting_prediction,
            final(self).mapper == old(self).mapper,
            final(self).max_steps == old(self).max_steps,
            final(self).last_frame == old(self).last_frame,
            final(self).frames_observed == old(self).frames_observed,
            final(self).actions_dispatched == old(self).actions_dispatched,
            final(self).last_action == old(self).last_action,
    {
        self.awaiting_prediction = false;
        if self.finished || game_exited || self.step >= self.max_steps {
            self.finished = true;
            self.frame_open = false;
            false
        } else {
            self.step = self.step + 1;
            self.frame_open = true;
            true
        }
    }

    /// Decides whether the newest frame is taken: only one strictly newer
    /// than the last consumed, and only once per iteration. A taken frame
    /// awaits its prediction.
    pub fn consider_frame(&mut self, latest: Option<u32>) -> (r: bool)
        requires
            old(self).wf(),
        ensures
            final(self).wf(),
            r == (old(self).frame_open && (latest matches Some(n) && n > old(self).last_frame)),
            r ==> {
                &&& final(self).last_frame == latest->0
                &&& final(self).frames_observed == old(self).frames_observed + 1
                &&& final(self).awaiting_prediction
                &&& !final(self).frame_open
            },
            !r ==> *final(self) == *old(self),
            final(self).last_frame >= old(self).last_frame,
            final(self).mapper == old(self).mapper,
            final(self).step == old(self).step,
            final(self).max_steps == old(self).max_steps,
            final(self).actions_dispatched == old(self).actions_dispatched,
            final(self).last_action == old(self).last_action,
            final(self).finished == old(self).finished,
    {
        match latest {
            Some(n) => {
                if self.frame_open && n > self.last_frame {
                    self.last_frame = n;
                    self.frames_observed = self.frames_observed + 1;
                    self.frame_open = false;
                    self.awaiting_prediction = true;
                    true
                } else {
                    false
                }
            },
            None => false,
        }
    }

    /// The action to dispatch for a prediction: the first action that the
    /// sample maps to, when a frame awaits its prediction and the sample maps
    /// to any action. A sample with no frame awaiting is stale and dropped.
    pub fn on_prediction(&mut self, sample: &GamepadState) -> (r: Option<GameAction>)
        requires
            old(self).wf(),
        ensures
            final(self).wf(),
            !final(self).awaiting_prediction,
            (r is Some) == (old(self).awaiting_prediction
                && actions_spec(*sample, old(self).mapper.mappings).len() > 0),
            r matches Some(a) ==> {
                &&& a@ == actions_spec(*sample, old(self).mapper.mappings)[0]
                &&& final(self).actions_dispatched == old(self).actions_dispatched + 1
                &&& (final(self).last_action matches Some(l) && l@ == a@)
            },
            r is None ==> final(self).actions_dispatched == old(self).actions_dispatched
                && final(self).last_action == old(self).last_action,
            final(self).mapper.mappings == old(self).mapper.mappings,
            old(self).awaiting_prediction ==> final(self).mapper.prev_state == Some(*sample),
            !old(self).awaiting_prediction ==> final(self).mapper.prev_state == old(self).mapper.prev_state,
            final(self).step == old(self).step,
            final(self).max_steps == old(self).max_steps,
            final(self).last_frame == old(self).last_frame,
            final(self).frames_observed == old(self).frames_observed,
            final(self).frame_open == old(self).frame_open,
            final(self).finished == old(self).finished,
    {
        if !self.awaiting_prediction {
            return None;
        }
        self.awaiting_prediction = false;
        let mut actions = self.mapper.map_to_actions(sample);
        let ghost all = actions@;
        assert(actions_view(all).len() == all.len());
        if actions.len() == 0 {
            return None;
        }
        let first = actions.remove(0);
        assert(actions_view(all)[0] == all[0]@);
        self.last_action = Some(copy_action(&first));
        self.actions_dispatched = self.actions_dispatched + 1;
        Some(first)
    }

    /// Settles a prediction that produced no sample (timed out, or the
    /// worker reported an error): the iteration dispatches nothing.
    pub fn on_skip(&mut self)
        requires
            old(self).wf(),
        ensures
            final(self).wf(),
            !final(self).awaiting_prediction,
            final(self).actions_dispatched == old(self).actions_dispatched,
            final(self).last_action == old(self).last_action,
            final(self).last_frame == old(self).last_frame,
            final(self).frames_observed == old(self).frames_observed,
            final(self).step == old(self).step,
            final(self).max_steps == old(self).max_steps,
            final(self).frame_open == old(self).frame_open,
            final(self).finished == old(self).finished,
            final(self).mapper == old(self).mapper,
    {
        self.awaiting_prediction = false;
    }

    /// Ends the session; no further iteration runs.
    pub fn finish(&mut self)
        requires
            old(self).wf(),
        ensures
            final(self).wf(),
            final(self).finished,
            !final(self).frame_open,
            !final(self).awaiting_prediction,
            final(self).frames_observed == old(self).frames_observed,
            final(self).actions_dispatched == old(self).actions_dispatched,
            final(self).step == old(self).step,
            final(self).max_steps == old(self).max_steps,
            final(self).last_frame == old(self).last_frame,
            final(self).last_action == old(self).last_action,
            final(self).mapper == old(self).mapper,
    {
        self.finished = true;
        self.frame_open = false;
        self.awaiting_prediction = false;
    }
}

} // verus!
