//! Blinking-cursor state for a text input.
//!
//! The struct holds the pure state of the blink cycle; the surrounding
//! application owns the timers.  A method that starts a new blink interval
//! returns the epoch the caller should schedule a wake-up for; a stale
//! wake-up, carrying an epoch that is no longer current, is ignored.

use vstd::prelude::*;

verus! {

/// State of a blinking cursor.
pub struct CursorState {
    /// Counter distinguishing the current blink interval from stale ones.
    pub blink_epoch: usize,
    /// Whether blinking is suspended.
    pub blinking_paused: bool,
    /// Whether the cursor is currently drawn.
    pub visible: bool,
    /// Whether blinking is active at all.
    pub enabled: bool,
}

impl Default for CursorState {
    /// Same as [`CursorState::new`].
    fn default() -> (r: CursorState)
        ensures
            r.blink_epoch == 0,
            !r.blinking_paused,
            r.visible,
            !r.enabled,
    {
        CursorState::new()
    }
}

impl CursorState {
    /// A fresh cursor: visible, not paused, not yet enabled.
    pub fn new() -> (r: CursorState)
        ensures
            r.blink_epoch == 0,
            !r.blinking_paused,
            r.visible,
            !r.enabled,
    {
        CursorState { blink_epoch: 0, blinking_paused: false, visible: true, enabled: false }
    }

    /// Starts a new blink interval and returns its epoch.
    fn next_blink_epoch(&mut self) -> (epoch: usize)
        requires
            old(self).blink_epoch < usize::MAX,
        ensures
            final(self).blink_epoch == old(self).blink_epoch + 1,
            epoch == final(self).blink_epoch,
            final(self).blinking_paused == old(self).blinking_paused,
            final(self).visible == old(self).visible,
            final(self).enabled == old(self).enabled,
    {
        self.blink_epoch = self.blink_epoch + 1;
        self.blink_epoch
    }

    /// Shows the cursor and opens a new interval; the caller should
    /// schedule [`CursorState::resume_cursor_blinking`] with the returned
    /// epoch.
    pub fn pause_blinking(&mut self) -> (epoch: usize)
        requires
            old(self).blink_epoch < usize::MAX,
        ensures
            final(self).visible,
            final(self).blink_epoch == old(self).blink_epoch + 1,
            epoch == final(self).blink_epoch,
            final(self).blinking_paused == old(self).blinking_paused,
            final(self).enabled == old(self).enabled,
    {
        self.show_cursor();
        self.next_blink_epoch()
    }

    /// Resumes blinking if the wake-up is current, toggling the cursor at
    /// once.  Returns the epoch of the next wake-up to schedule, if any.
    pub fn resume_cursor_blinking(&mut self, epoch: usize) -> (next: Option<usize>)
        requires
            old(self).blink_epoch < usize::MAX,
        ensures
            epoch != old(self).blink_epoch ==> *final(self) == *old(self) && next is None,
            epoch == old(self).blink_epoch ==> !final(self).blinking_paused && final(self).enabled
                == old(self).enabled,
            epoch == old(self).blink_epoch && old(self).enabled ==> final(self).visible == !old(self).visible && final(self).blink_epoch == old(self).blink_epoch + 1 && next == Some(
                final(self).blink_epoch,
            ),
            epoch == old(self).blink_epoch && !old(self).enabled ==> final(self).visible == old(self).visible && final(self).blink_epoch == old(self).blink_epoch && next is None,
    {
        if epoch == self.blink_epoch {
            self.blinking_paused = false;
            self.blink_cursors(epoch)
        } else {
            None
        }
    }

    /// Toggles the cursor if the wake-up is current, blinking is enabled
    /// and not paused.  Returns the epoch of the next wake-up to schedule,
    /// if any.
    pub fn blink_cursors(&mut self, epoch: usize) -> (next: Option<usize>)
        requires
            old(self).blink_epoch < usize::MAX,
        ensures
            ({
                let fires = epoch == old(self).blink_epoch && old(self).enabled && !old(self).blinking_paused;
                if fires {
                    final(self).visible == !old(self).visible && final(self).blink_epoch == old(self).blink_epoch + 1 && next == Some(final(self).blink_epoch)
                } else {
                    *final(self) == *old(self) && next is None
                }
            }),
            final(self).blinking_paused == old(self).blinking_paused,
            final(self).enabled == old(self).enabled,
    {
        if epoch == self.blink_epoch && self.enabled && !self.blinking_paused {
            self.visible = !self.visible;
            let epoch = self.next_blink_epoch();
            Some(epoch)
        } else {
            None
        }
    }

    /// Makes the cursor visible.  Returns whether that changed anything,
    /// so that the caller knows whether to redraw.
    pub fn show_cursor(&mut self) -> (changed: bool)
        ensures
            final(self).visible,
            changed == !old(self).visible,
            final(self).blink_epoch == old(self).blink_epoch,
            final(self).blinking_paused == old(self).blinking_paused,
            final(self).enabled == old(self).enabled,
    {
        if !self.visible {
            self.visible = true;
            true
        } else {
            false
        }
    }

    /// Enables blinking: the cursor is hidden and the first blink makes it
    /// visible on the next redraw.  Returns the epoch of the wake-up to
    /// schedule, if blinking started.
    pub fn enable(&mut self) -> (next: Option<usize>)
        requires
            old(self).blink_epoch < usize::MAX,
        ensures
            old(self).enabled ==> *final(self) == *old(self) && next is None,
            !old(self).enabled ==> final(self).enabled && final(self).blinking_paused == old(self).blinking_paused,
            !old(self).enabled && !old(self).blinking_paused ==> final(self).visible && final(self).blink_epoch == old(self).blink_epoch + 1 && next == Some(final(self).blink_epoch),
            !old(self).enabled && old(self).blinking_paused ==> !final(self).visible && final(self).blink_epoch == old(self).blink_epoch && next is None,
    {
        if self.enabled {
            return None;
        }
        self.enabled = true;
        self.visible = false;
        let epoch = self.blink_epoch;
        self.blink_cursors(epoch)
    }

    /// Disables blinking and hides the cursor.
    pub fn disable(&mut self)
        ensures
            !final(self).visible,
            !final(self).enabled,
            final(self).blink_epoch == old(self).blink_epoch,
            final(self).blinking_paused == old(self).blinking_paused,
    {
        self.visible = false;
        self.enabled = false;
    }

    /// Whether the cursor is currently drawn.
    pub fn visible(&self) -> (r: bool)
        ensures
            r == self.visible,
    {
        self.visible
    }
}

} // verus!
