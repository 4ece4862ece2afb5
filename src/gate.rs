use vstd::prelude::*;

verus! {

/// Tells edits that the user made from edits made by program, such as the
/// engine's own undo and redo. The last call of `begin_user_action` or
/// `end_user_action` decides; nothing is counted.
pub struct UserActionGate {
    in_user_action: bool,
}

impl View for UserActionGate {
    type V = bool;

    closed spec fn view(&self) -> bool {
        self.in_user_action
    }
}

impl UserActionGate {
    /// A gate outside any user action.
    pub fn new() -> (r: UserActionGate)
        ensures
            !r@,
    {
        UserActionGate { in_user_action: false }
    }

    /// The buffer starts a user edit.
    pub fn begin_user_action(&mut self)
        ensures
            final(self)@,
    {
        self.in_user_action = true;
    }

    /// The buffer ends a user edit.
    pub fn end_user_action(&mut self)
        ensures
            !final(self)@,
    {
        self.in_user_action = false;
    }

    /// Whether a user edit is under way.
    pub fn is_user_action(&self) -> (r: bool)
        ensures
            r == self@,
    {
        self.in_user_action
    }
}

} // verus!
