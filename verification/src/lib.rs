//! State management and rendering resources of a small tile-based game: the
//! tile atlas, the keyboard tracker, and the game-state machine with its timed
//! transitions.

pub mod assets;
pub mod draw;
pub mod states;
pub mod util;

use crate::assets::{Atlas, AtlasError};
use crate::draw::DrawCommand;
use crate::states::transition::{is_overlay, Transition};
use crate::util::KeySet;
use vstd::prelude::*;

verus! {

/// What game states may consult while they update and render: the keyboard
/// and the tile atlas. States read it; only the host changes it.
pub struct Platform {
    pub keys: KeySet,
    pub atlas: Atlas,
}

/// An ordinary state of the application: a screen or mode of its own making.
pub trait Scene: Sized {
    /// What the state looks like right now. Does not change the state.
    fn render(&self, platform: &Platform) -> Result<Vec<DrawCommand>, AtlasError>;

    /// Advances the state by one frame. `Some` asks the host to switch to the
    /// state returned; `None` keeps this one.
    fn update(&mut self, platform: &Platform) -> Result<Option<GameState<Self>>, AtlasError>;

    /// An independent value in the same state. A transition hands out
    /// duplicates of the state it leads to, so what comes back must equal
    /// `self` in everything that can be observed of it.
    fn duplicate(&self) -> (copy: Self)
        ensures
            copy == *self,
    ;
}

/// What is on screen: one of the application's own states, or a transition
/// between two game states.
#[derive(Debug, PartialEq, Eq)]
pub enum GameState<S> {
    Ordinary(S),
    Transition(Transition<S>),
}

impl<S> GameState<S> {
    /// Ends a frame's update: if the update asked for another state, that
    /// state becomes the current one and the old one is dropped; if not, the
    /// current state stays.
    pub fn replace_with(&mut self, next: Option<GameState<S>>)
        ensures
            *final(self) == match next {
                Some(state) => state,
                None => *old(self),
            },
    {
        if let Some(state) = next {
            *self = state;
        }
    }
}

impl<S: Scene> GameState<S> {
    /// What to draw for this state. A failure of the atlas inside a state is
    /// handed up unchanged.
    pub fn render(&self, platform: &Platform) -> (frame: Result<Vec<DrawCommand>, AtlasError>)
        ensures
            self matches GameState::Ordinary(scene) ==> call_ensures(
                S::render,
                (&scene, platform),
                frame,
            ),
            self is Transition ==> (frame matches Ok(commands) && commands@.len() == 1
                && is_overlay(commands@[0])),
    {
        match self {
            GameState::Ordinary(scene) => scene.render(platform),
            GameState::Transition(transition) => Ok(transition.render(platform)),
        }
    }

    /// Advances this state by one frame. `Ok(Some(next))` asks the host to
    /// discard this state and make `next` the current one. An ordinary state
    /// is advanced by its own `update`, once, and what that returns is handed
    /// on as it is.
    pub fn update(&mut self, platform: &Platform) -> (next: Result<Option<GameState<S>>, AtlasError>)
        ensures
            match *old(self) {
                GameState::Transition(transition) => {
                    &&& *final(self) == GameState::Transition(transition.ticked())
                    &&& next == Ok::<Option<GameState<S>>, AtlasError>(transition.outcome())
                    &&& *final(self) matches GameState::Transition(left) && {
                        &&& left.from() == transition.from()
                        &&& left.to() == transition.to()
                        &&& left.timer() == if transition.timer() > 0 {
                            transition.timer() - 1
                        } else {
                            0
                        }
                    }
                },
                GameState::Ordinary(before) => {
                    &&& *final(self) is Ordinary
                    &&& exists|scene: &mut S|
                        mut_ref_current(scene) == before && #[trigger] call_ensures(
                            S::update,
                            (scene, platform),
                            next,
                        ) && *final(self) == GameState::Ordinary(mut_ref_future(scene))
                },
            },
    {
        match self {
            GameState::Ordinary(scene) => scene.update(platform),
            GameState::Transition(transition) => Ok(transition.update(platform)),
        }
    }

    /// An independent value in the same state.
    pub fn duplicate(&self) -> (copy: GameState<S>)
        ensures
            copy == *self,
        decreases *self,
    {
        match self {
            GameState::Ordinary(scene) => GameState::Ordinary(scene.duplicate()),
            GameState::Transition(transition) => GameState::Transition(transition.duplicate()),
        }
    }
}

} // verus!
