use vstd::prelude::*;

verus! {

/// The characters that trigger the Normal-mode actions.
#[derive(Clone, Copy, Debug, PartialEq, Eq, Structural)]
pub struct UserControls {
    pub move_left: char,
    pub move_right: char,
    pub move_up: char,
    pub move_down: char,
    pub insert_mode: char,
}

impl Default for UserControls {
    /// The built-in bindings: `h`, `l`, `k`, `j` to move, `i` to insert.
    fn default() -> (r: Self)
        ensures
            r.move_left == 'h',
            r.move_right == 'l',
            r.move_up == 'k',
            r.move_down == 'j',
            r.insert_mode == 'i',
    {
        Self { move_left: 'h', move_right: 'l', move_up: 'k', move_down: 'j', insert_mode: 'i' }
    }
}

} // verus!
