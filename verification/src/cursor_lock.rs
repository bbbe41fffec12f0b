//! Pointer capture: a two-state machine that the window's focus can force
//! open, and that gates the camera's use of the mouse.

use vstd::prelude::*;

verus! {

/// Whether the pointer is captured by the window.
#[derive(Clone, Copy, Debug, PartialEq, Eq, Structural)]
pub enum LockState {
    Unlocked,
    Locked,
}

/// What the lock reads of a window event.
#[derive(Clone, Copy, Debug, PartialEq, Eq, Structural)]
pub enum WindowEvent {
    /// The window gained (`true`) or lost (`false`) the focus.
    Focused(bool),
    /// Any other event.
    Other,
}

/// What the host has to do with the pointer.
#[derive(Clone, Copy, Debug, PartialEq, Eq, Structural)]
pub enum CursorAction {
    /// Leave the pointer as it is.
    Keep,
    /// Capture the pointer and hide the cursor.
    Capture,
    /// Let the pointer go and show the cursor.
    Release,
}

impl LockState {
    /// The state on construction: locked where the application wants the lock.
    pub open spec fn initial(should_lock_cursor: bool) -> LockState {
        if should_lock_cursor {
            LockState::Locked
        } else {
            LockState::Unlocked
        }
    }

    /// The state after a window event. Losing the focus forces the lock open;
    /// nothing else changes the state.
    pub open spec fn after_window_event(self, event: WindowEvent) -> LockState {
        if event == WindowEvent::Focused(false) {
            LockState::Unlocked
        } else {
            self
        }
    }

    /// The action for a move from `self` to `next`, where `next` is not a
    /// request to lock: a lock that opens is released.
    pub open spec fn released_into(self, next: LockState) -> CursorAction {
        if self == LockState::Locked && next == LockState::Unlocked {
            CursorAction::Release
        } else {
            CursorAction::Keep
        }
    }

    /// The action of a tick: a held lock is captured again.
    pub open spec fn reassert(self) -> CursorAction {
        if self == LockState::Locked {
            CursorAction::Capture
        } else {
            CursorAction::Keep
        }
    }
}

/// The pointer lock of one window.
pub struct CursorLock {
    state: LockState,
}

impl View for CursorLock {
    type V = LockState;

    closed spec fn view(&self) -> LockState {
        self.state
    }
}

impl CursorLock {
    pub fn new(should_lock_cursor: bool) -> (lock: Self)
        ensures
            lock@ == LockState::initial(should_lock_cursor),
    {
        if should_lock_cursor {
            CursorLock { state: LockState::Locked }
        } else {
            CursorLock { state: LockState::Unlocked }
        }
    }

    /// The application asks for the lock.
    pub fn lock(&mut self) -> (action: CursorAction)
        ensures
            final(self)@ == LockState::Locked,
            action == CursorAction::Capture,
    {
        self.state = LockState::Locked;
        CursorAction::Capture
    }

    /// The application gives the lock up, or the host reports it lost.
    pub fn unlock(&mut self) -> (action: CursorAction)
        ensures
            final(self)@ == LockState::Unlocked,
            action == old(self)@.released_into(LockState::Unlocked),
    {
        let action = Self::release_if_locked(self.state);
        self.state = LockState::Unlocked;
        action
    }

    /// Reads a window event: losing the focus forces the lock open.
    pub fn window_event(&mut self, event: &WindowEvent) -> (action: CursorAction)
        ensures
            final(self)@ == old(self)@.after_window_event(*event),
            action == old(self)@.released_into(final(self)@),
    {
        match event {
            WindowEvent::Focused(false) => {
                let action = Self::release_if_locked(self.state);
                self.state = LockState::Unlocked;
                action
            },
            _ => CursorAction::Keep,
        }
    }

    /// The lock's part of a tick: a held lock is captured again, as a guard
    /// against a host that dropped it unasked. The state does not change.
    pub fn update(&self) -> (action: CursorAction)
        ensures
            action == self@.reassert(),
    {
        match self.state {
            LockState::Locked => CursorAction::Capture,
            LockState::Unlocked => CursorAction::Keep,
        }
    }

    pub fn is_cursor_locked(&self) -> (locked: bool)
        ensures
            locked == (self@ == LockState::Locked),
    {
        match self.state {
            LockState::Locked => true,
            LockState::Unlocked => false,
        }
    }

    fn release_if_locked(state: LockState) -> (action: CursorAction)
        ensures
            action == state.released_into(LockState::Unlocked),
    {
        match state {
            LockState::Locked => CursorAction::Release,
            LockState::Unlocked => CursorAction::Keep,
        }
    }
}

} // verus!
