//! Frame-loop bookkeeping.
//!
//! A render loop owns a [`Gui`], reads a clock each frame, and calls
//! [`Gui::update`] with the current time in milliseconds. The `Gui` computes
//! the time elapsed since the previous frame and hands it to the game logic
//! through the [`MainFunction`] trait.

use vstd::prelude::*;

verus! {

/// The main function where the game logic runs each frame. It receives the
/// time elapsed since the previous frame, in milliseconds.
pub trait MainFunction {
    /// Runs one frame of game logic.
    fn frame(&mut self, dt_millis: u64);
}

/// Drives a [`MainFunction`] once per frame and keeps track of the time
/// between frames.
pub struct Gui<F: MainFunction> {
    main_function: F,
    last_update_millis: u64,
}

impl<F: MainFunction> Gui<F> {
    /// The time, in milliseconds, at which the last frame ran.
    pub closed spec fn last_update(self) -> u64 {
        self.last_update_millis
    }

    /// Creates the frame driver, treating `now_millis` as the moment of the
    /// (virtual) frame before the first real one.
    pub fn new(main_function: F, now_millis: u64) -> (g: Gui<F>)
        ensures
            g.last_update() == now_millis,
    {
        Gui { main_function, last_update_millis: now_millis }
    }

    /// Runs one frame at time `now_millis`: computes the time elapsed since
    /// the previous frame (zero if the clock ran backwards), hands it to the
    /// main function, and records `now_millis` as the new last frame time.
    pub fn update(&mut self, now_millis: u64) -> (dt: u64)
        ensures
            now_millis >= old(self).last_update() ==> dt == now_millis - old(self).last_update(),
            now_millis < old(self).last_update() ==> dt == 0,
            final(self).last_update() == now_millis,
    {
        let dt: u64 = if now_millis >= self.last_update_millis {
            now_millis - self.last_update_millis
        } else {
            0
        };
        self.last_update_millis = now_millis;
        self.main_function.frame(dt);
        dt
    }
}

} // verus!
