//! Components of the player entity: the animation state machine's state and
//! the sprite sheets it switches between.

use vstd::prelude::*;

verus! {

/// The current animation state of the monarch.
///
/// This is the single source of truth for which animation sheet is active.
/// Systems that want to change the monarch's animation write this value; the
/// sheet swap ([`crate::player::animation::apply_animation`]) follows it.
#[derive(Debug, Clone, Copy, PartialEq, Eq, Structural)]
pub enum AnimationState {
    Idle,
    Walk,
    Run,
}

impl Default for AnimationState {
    /// The monarch starts idle.
    fn default() -> (state: Self)
        ensures
            state == AnimationState::Idle,
    {
        AnimationState::Idle
    }
}

/// The sprite sheets of the monarch: for each animation state an image and
/// the atlas layout that cuts it into frames.
///
/// `I` is the image handle type and `L` the layout handle type of the engine;
/// the library only selects among them and never looks inside.
pub struct PlayerAnimations<I, L> {
    pub idle: I,
    pub idle_layout: L,
    pub walk: I,
    pub walk_layout: L,
    pub run: I,
    pub run_layout: L,
}

impl<I, L> PlayerAnimations<I, L> {
    /// The image bound while in `state`.
    pub open spec fn image_for(self, state: AnimationState) -> I {
        match state {
            AnimationState::Idle => self.idle,
            AnimationState::Walk => self.walk,
            AnimationState::Run => self.run,
        }
    }

    /// The atlas layout bound while in `state`.
    pub open spec fn layout_for(self, state: AnimationState) -> L {
        match state {
            AnimationState::Idle => self.idle_layout,
            AnimationState::Walk => self.walk_layout,
            AnimationState::Run => self.run_layout,
        }
    }

    /// The image and the atlas layout of the sheet for `state`.
    pub fn sheet(&self, state: AnimationState) -> (sheet: (&I, &L))
        ensures
            *sheet.0 == self.image_for(state),
            *sheet.1 == self.layout_for(state),
    {
        match state {
            AnimationState::Idle => (&self.idle, &self.idle_layout),
            AnimationState::Walk => (&self.walk, &self.walk_layout),
            AnimationState::Run => (&self.run, &self.run_layout),
        }
    }
}

} // verus!
