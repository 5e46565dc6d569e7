//! Spinning-state decisions of the loading spinner.
//!
//! The spinner's rotation is animated by the application's motion runtime;
//! this module decides, for each request, whether a rotation animation is
//! played and with which trigger.

use vstd::prelude::*;

verus! {

/// Spinner animation trigger.
#[derive(Clone, Copy, Debug, Eq, PartialEq)]
pub enum SpinnerMotionTrigger {
    /// Continuous spinning started.
    Start,
    /// Spinning stopped.
    Stop,
    /// Runtime motion synchronized with current state.
    Sync,
}

/// Whether a spinner is configured to rotate.
///
/// Every method that returns a trigger asks the caller to play that trigger's
/// animation, which also registers the spinner's motion.
#[derive(Clone, Copy, Debug, Eq, PartialEq)]
pub struct SpinnerState {
    spinning: bool,
}

impl SpinnerState {
    /// Whether the spinner is configured to rotate.
    pub closed spec fn spec_spinning(self) -> bool {
        self.spinning
    }

    /// A spinner that starts when registered.
    pub fn new() -> (r: Self)
        ensures
            r.spec_spinning(),
    {
        Self { spinning: true }
    }

    /// A spinner that remains still until started.
    pub fn stopped() -> (r: Self)
        ensures
            !r.spec_spinning(),
    {
        Self { spinning: false }
    }

    /// Returns this state with a different initial spinning state.
    pub fn with_spinning(self, spinning: bool) -> (r: Self)
        ensures
            r.spec_spinning() == spinning,
    {
        Self { spinning }
    }

    /// Returns whether the spinner is configured to rotate.
    pub fn is_spinning(&self) -> (r: bool)
        ensures
            r == self.spec_spinning(),
    {
        self.spinning
    }

    /// Registration: a spinning spinner starts the first time it is
    /// registered.
    pub fn register(&self, was_registered: bool) -> (r: Option<SpinnerMotionTrigger>)
        ensures
            r == (if self.spec_spinning() && !was_registered {
                Some(SpinnerMotionTrigger::Start)
            } else {
                None
            }),
    {
        if self.spinning && !was_registered {
            Some(SpinnerMotionTrigger::Start)
        } else {
            None
        }
    }

    /// Starts continuous spinning; a registered spinner that already spins is
    /// left alone.
    pub fn start(&mut self, registered: bool) -> (r: Option<SpinnerMotionTrigger>)
        ensures
            final(self).spec_spinning(),
            r == (if old(self).spec_spinning() && registered {
                None
            } else {
                Some(SpinnerMotionTrigger::Start)
            }),
    {
        if self.spinning && registered {
            return None;
        }
        self.spinning = true;
        Some(SpinnerMotionTrigger::Start)
    }

    /// Stops spinning and keeps the current angle; an unregistered spinner
    /// that is already still is left alone.
    pub fn stop(&mut self, registered: bool) -> (r: Option<SpinnerMotionTrigger>)
        ensures
            !final(self).spec_spinning(),
            r == (if !old(self).spec_spinning() && !registered {
                None
            } else {
                Some(SpinnerMotionTrigger::Stop)
            }),
    {
        if !self.spinning && !registered {
            return None;
        }
        self.spinning = false;
        Some(SpinnerMotionTrigger::Stop)
    }

    /// Starts or stops spinning.
    pub fn set_spinning(&mut self, spinning: bool, registered: bool) -> (r: Option<
        SpinnerMotionTrigger,
    >)
        ensures
            final(self).spec_spinning() == spinning,
            spinning ==> r == (if old(self).spec_spinning() && registered {
                None
            } else {
                Some(SpinnerMotionTrigger::Start)
            }),
            !spinning ==> r == (if !old(self).spec_spinning() && !registered {
                None
            } else {
                Some(SpinnerMotionTrigger::Stop)
            }),
    {
        if spinning {
            self.start(registered)
        } else {
            self.stop(registered)
        }
    }

    /// Synchronization: a registered spinner replays its current state; an
    /// unregistered one is left alone.
    pub fn sync(&self, registered: bool) -> (r: Option<SpinnerMotionTrigger>)
        ensures
            r == (if !registered {
                None
            } else if self.spec_spinning() {
                Some(SpinnerMotionTrigger::Sync)
            } else {
                Some(SpinnerMotionTrigger::Stop)
            }),
    {
        if !registered {
            return None;
        }
        if self.spinning {
            Some(SpinnerMotionTrigger::Sync)
        } else {
            Some(SpinnerMotionTrigger::Stop)
        }
    }
}

impl Default for SpinnerState {
    /// A spinner that starts when registered.
    fn default() -> (r: Self)
        ensures
            r.spec_spinning(),
    {
        Self::new()
    }
}

} // verus!
