//! The timed hand-over from one game state to the next.

use crate::draw::{text, Color, DrawCommand, FontAlign};
use crate::{GameState, Platform, Scene};
use vstd::prelude::*;

verus! {

/// Number of updates that a transition lasts unless told otherwise: one
/// second at sixty updates per second.
pub const TRANSITION_FRAMES: u32 = 60;

/// A game state that stands between two others: it shows a notice for a fixed
/// number of updates and then yields the state it leads to.
#[derive(Debug, PartialEq, Eq)]
pub struct Transition<S> {
    from: Box<GameState<S>>,
    to: Box<GameState<S>>,
    /// Number of frames left to transition for.
    timer: u32,
}

/// Whether `command` is the notice that a transition shows: the words
/// "Transitioning!" in white, left-aligned at `(10, 10)`.
pub open spec fn is_overlay(command: DrawCommand) -> bool {
    command matches DrawCommand::Text(line) && {
        &&& line.color == Color::from_rgb(u8::MAX, u8::MAX, u8::MAX)
        &&& line.x == 10
        &&& line.y == 10
        &&& line.align == FontAlign::Left
        &&& line.text@ == "Transitioning!"@
    }
}

impl<S> Transition<S> {
    /// The state that is being left.
    pub closed spec fn spec_from(&self) -> &GameState<S> {
        &*self.from
    }

    /// The state that takes over when the timer has run out.
    pub closed spec fn spec_to(&self) -> &GameState<S> {
        &*self.to
    }

    /// Number of updates left.
    pub closed spec fn spec_timer(&self) -> u32 {
        self.timer
    }

    /// The transition after one update: the timer is one lower, unless it was
    /// already at zero; nothing else changes.
    pub closed spec fn ticked(self) -> Transition<S> {
        Transition {
            from: self.from,
            to: self.to,
            timer: if self.timer > 0 {
                (self.timer - 1) as u32
            } else {
                0
            },
        }
    }

    /// What one update returns: the destination if that update brings the
    /// timer to zero or finds it there, nothing otherwise.
    pub open spec fn outcome(self) -> Option<GameState<S>> {
        if self.timer() <= 1 {
            Some(*self.to())
        } else {
            None
        }
    }

    /// The transition after `n` updates.
    pub open spec fn after(self, n: nat) -> Transition<S>
        decreases n,
    {
        if n == 0 {
            self
        } else {
            self.after((n - 1) as nat).ticked()
        }
    }

    /// How one update changes what can be seen of a transition.
    pub proof fn lemma_ticked(self)
        ensures
            self.ticked().from() == self.from(),
            self.ticked().to() == self.to(),
            self.ticked().timer() == if self.timer() > 0 {
                self.timer() - 1
            } else {
                0
            },
    {
    }

    /// What `n` updates leave of a transition: the two states as they were,
    /// and the timer lower by `n`, or at zero if it had less left.
    pub proof fn lemma_after(self, n: nat)
        ensures
            self.after(n).from() == self.from(),
            self.after(n).to() == self.to(),
            self.after(n).timer() == if n <= self.timer() {
                self.timer() - n
            } else {
                0
            },
        decreases n,
    {
        if n > 0 {
            self.lemma_after((n - 1) as nat);
            self.after((n - 1) as nat).lemma_ticked();
        }
    }

    /// The countdown: of the updates of a transition, numbered from 1, each
    /// one before the timer's initial value returns nothing and leaves the
    /// timer one lower than the update before it; the one that brings the
    /// timer to zero returns the destination, and so does every later one.
    pub proof fn lemma_countdown(self, k: nat)
        requires
            k >= 1,
        ensures
            k <= self.timer() ==> self.after(k).timer() == self.after((k - 1) as nat).timer() - 1,
            k <= self.timer() ==> self.after(k).timer() == self.timer() - k,
            k < self.timer() ==> self.after((k - 1) as nat).outcome() is None,
            k >= self.timer() ==> self.after((k - 1) as nat).outcome() == Some(*self.to()),
    {
        self.lemma_after(k);
        self.lemma_after((k - 1) as nat);
        self.after((k - 1) as nat).lemma_ticked();
    }

    /// A transition from `from` to `to` that lasts [`TRANSITION_FRAMES`]
    /// updates.
    pub fn new(from: Box<GameState<S>>, to: Box<GameState<S>>) -> (transition: Transition<S>)
        ensures
            *transition.from() == *from,
            *transition.to() == *to,
            transition.timer() == TRANSITION_FRAMES,
    {
        Transition { from, to, timer: TRANSITION_FRAMES }
    }

    /// A transition from `from` to `to` that lasts `frames` updates.
    pub fn with_duration(from: Box<GameState<S>>, to: Box<GameState<S>>, frames: u32) -> (transition:
        Transition<S>)
        ensures
            *transition.from() == *from,
            *transition.to() == *to,
            transition.timer() == frames,
    {
        Transition { from, to, timer: frames }
    }

    /// The state that is being left.
    #[verifier::when_used_as_spec(spec_from)]
    pub fn from(&self) -> (state: &GameState<S>)
        ensures
            state == self.spec_from(),
    {
        &*self.from
    }

    /// The state that takes over when the timer has run out.
    #[verifier::when_used_as_spec(spec_to)]
    pub fn to(&self) -> (state: &GameState<S>)
        ensures
            state == self.spec_to(),
    {
        &*self.to
    }

    /// Number of updates left.
    #[verifier::when_used_as_spec(spec_timer)]
    pub fn timer(&self) -> (frames: u32)
        ensures
            frames == self.spec_timer(),
    {
        self.timer
    }

    /// What a transition shows: its notice and nothing else, whatever the two
    /// states would draw themselves.
    pub fn render(&self, _p: &Platform) -> (frame: Vec<DrawCommand>)
        ensures
            frame@.len() == 1,
            is_overlay(frame@[0]),
    {
        let white = Color::from_rgb(u8::MAX, u8::MAX, u8::MAX);
        let mut frame: Vec<DrawCommand> = Vec::new();
        frame.push(text(white, (10, 10), FontAlign::Left, "Transitioning!"));
        frame
    }
}

impl<S: Scene> Transition<S> {
    /// Advances the transition by one frame. Counts the timer down by one;
    /// when it has reached zero, returns a copy of the destination for the
    /// host to switch to. The state that is being left is not updated.
    pub fn update(&mut self, _p: &Platform) -> (next: Option<GameState<S>>)
        ensures
            *final(self) == old(self).ticked(),
            next == old(self).outcome(),
            final(self).from() == old(self).from(),
            final(self).to() == old(self).to(),
            final(self).timer() == if old(self).timer() > 0 {
                old(self).timer() - 1
            } else {
                0
            },
    {
        if self.timer > 0 {
            self.timer = self.timer - 1;
        }
        if self.timer == 0 {
            Some(self.to.duplicate())
        } else {
            None
        }
    }

    /// An independent transition in the same state.
    pub fn duplicate(&self) -> (copy: Transition<S>)
        ensures
            copy == *self,
        decreases *self,
    {
        Transition {
            from: Box::new(self.from.duplicate()),
            to: Box::new(self.to.duplicate()),
            timer: self.timer,
        }
    }

    /// This transition as a game state of its own, boxed.
    pub fn box_clone(&self) -> (copy: Box<GameState<S>>)
        ensures
            *copy == GameState::Transition(*self),
    {
        Box::new(GameState::Transition(self.duplicate()))
    }
}

} // verus!
