//! A per-frame snapshot of which named input bindings are held.

use vstd::prelude::*;

verus! {

/// The fixed, closed set of named actions an input device can hold.
#[derive(Clone, Copy, PartialEq, Eq, Structural, Debug)]
pub enum Binding {
    MoveForward,
    MoveBack,
    StrafeLeft,
    StrafeRight,
    TurnLeft,
    TurnRight,
    Action,
}

/// One boolean "currently held" state per binding, rebuilt every
/// frame by the input collaborator.
#[derive(Clone, Copy, PartialEq, Eq, Structural, Debug)]
pub struct Input {
    pub move_forward: bool,
    pub move_back: bool,
    pub strafe_left: bool,
    pub strafe_right: bool,
    pub turn_left: bool,
    pub turn_right: bool,
    pub action: bool,
}

impl Input {
    /// The held state of one binding.
    pub open spec fn spec_is_down(&self, binding: Binding) -> bool {
        match binding {
            Binding::MoveForward => self.move_forward,
            Binding::MoveBack => self.move_back,
            Binding::StrafeLeft => self.strafe_left,
            Binding::StrafeRight => self.strafe_right,
            Binding::TurnLeft => self.turn_left,
            Binding::TurnRight => self.turn_right,
            Binding::Action => self.action,
        }
    }

    /// No binding is held.
    pub open spec fn spec_none_down(&self) -> bool {
        forall|b: Binding| !self.spec_is_down(b)
    }

    /// Whether `binding` is currently held.
    pub fn is_down(&self, binding: Binding) -> (d: bool)
        ensures
            d == self.spec_is_down(binding),
    {
        match binding {
            Binding::MoveForward => self.move_forward,
            Binding::MoveBack => self.move_back,
            Binding::StrafeLeft => self.strafe_left,
            Binding::StrafeRight => self.strafe_right,
            Binding::TurnLeft => self.turn_left,
            Binding::TurnRight => self.turn_right,
            Binding::Action => self.action,
        }
    }

    /// Records the held state of one binding, leaving the others as
    /// they were.
    pub fn set_down(&mut self, binding: Binding, down: bool)
        ensures
            final(self).spec_is_down(binding) == down,
            forall|b: Binding|
                b != binding ==> final(self).spec_is_down(b) == old(self).spec_is_down(b),
    {
        match binding {
            Binding::MoveForward => self.move_forward = down,
            Binding::MoveBack => self.move_back = down,
            Binding::StrafeLeft => self.strafe_left = down,
            Binding::StrafeRight => self.strafe_right = down,
            Binding::TurnLeft => self.turn_left = down,
            Binding::TurnRight => self.turn_right = down,
            Binding::Action => self.action = down,
        }
    }
}

impl Default for Input {
    /// A fresh snapshot: nothing held.
    fn default() -> (r: Input)
        ensures
            r.spec_none_down(),
    {
        Input {
            move_forward: false,
            move_back: false,
            strafe_left: false,
            strafe_right: false,
            turn_left: false,
            turn_right: false,
            action: false,
        }
    }
}

} // verus!
