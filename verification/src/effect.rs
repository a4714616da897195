//! The effect descriptor: one text attribute drawn from a closed set,
//! each with a fixed single-digit SGR code.

use vstd::prelude::*;

use crate::sgr::{effect_code, push_effect_code};

verus! {

/// One text attribute. Each variant maps to a fixed SGR numeric code:
/// Bold 1, Faint 2, Italic 3, Underline 4, ReverseVideo 7, CrossedOut 9.
#[derive(Clone, Copy, Debug, PartialEq, Eq, Structural)]
pub enum Effect {
    Bold,
    Faint,
    Italic,
    Underline,
    ReverseVideo,
    CrossedOut,
}

impl Effect {
    /// The code this effect contributes to an SGR sequence: the one
    /// digit of its fixed numeric code.
    pub fn render(&self) -> (s: String)
        ensures
            s@ == seq![effect_code(*self)],
    {
        let mut s = String::new();
        push_effect_code(&mut s, self);
        assert(s@ =~= seq![effect_code(*self)]);
        s
    }
}

} // verus!
