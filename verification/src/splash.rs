//! The splash screen: it stays for a fixed time, then the menu comes up.

use vstd::prelude::*;
use crate::config::SPLASH_TIME;
use crate::game::{Game, GameView};
use crate::state::AppState;

verus! {

/// A timer that runs once. Times are in nanoseconds.
#[derive(Clone, Copy, Debug, PartialEq, Eq, Structural)]
pub struct SplashTimer {
    pub elapsed: u64,
    pub duration: u64,
    pub finished: bool,
}

impl SplashTimer {
    /// The timer after `delta` more nanoseconds: once it has reached
    /// its duration it stays there.
    pub open spec fn ticked(self, delta: u64) -> SplashTimer {
        if self.finished {
            self
        } else if self.elapsed + delta >= self.duration {
            SplashTimer { elapsed: self.duration, finished: true, ..self }
        } else {
            SplashTimer { elapsed: (self.elapsed + delta) as u64, ..self }
        }
    }

    /// The timer of the splash screen, not yet started.
    pub open spec fn fresh() -> SplashTimer {
        SplashTimer { elapsed: 0, duration: SPLASH_TIME, finished: false }
    }

    pub fn new() -> (timer: SplashTimer)
        ensures
            timer == SplashTimer::fresh(),
    {
        SplashTimer { elapsed: 0, duration: SPLASH_TIME, finished: false }
    }

    /// Lets `delta` nanoseconds pass and tells whether the time is up.
    pub fn tick(&mut self, delta: u64) -> (finished: bool)
        ensures
            *final(self) == old(self).ticked(delta),
            finished == final(self).finished,
    {
        if !self.finished {
            let sum: u128 = (self.elapsed as u128) + (delta as u128);
            if sum >= self.duration as u128 {
                self.elapsed = self.duration;
                self.finished = true;
            } else {
                self.elapsed = sum as u64;
            }
        }
        self.finished
    }
}

impl GameView {
    /// The game after the splash screen has seen a timer that is up or
    /// not: when it is up, the menu comes up with its main view.
    pub open spec fn countdown(self, finished: bool) -> GameView {
        if self.app_state == AppState::Splash && finished {
            (GameView { app_state: AppState::Menu, ..self }).menu_setup()
        } else {
            self
        }
    }
}

impl Game {
    /// Lets time pass on the splash screen and brings the menu up when
    /// the splash screen has stayed long enough.
    pub fn countdown(&mut self, timer: &mut SplashTimer, delta: u64)
        ensures
            *final(timer) == old(timer).ticked(delta),
            final(self)@ == old(self)@.countdown(final(timer).finished),
            old(self)@.wf() ==> final(self)@.wf(),
    {
        if timer.tick(delta) {
            if self.app_state == AppState::Splash {
                self.app_state = AppState::Menu;
                self.menu_setup_system();
            }
        }
    }
}

} // verus!
