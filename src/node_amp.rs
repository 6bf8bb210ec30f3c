//! The amplifier node: its output layout and its enumerated
//! "negative attenuation" setting.
use vstd::prelude::*;

verus! {

/// How the amplifier treats a negative attenuation input.
#[derive(Debug, Clone, Copy, PartialEq, Eq, Structural)]
pub enum NegAtt {
    /// The magnitude of the input is used.
    Allow,
    /// Negative inputs are clipped to zero.
    Clip,
}

/// The setting that the atom index `i` selects: any index above zero clips.
pub open spec fn neg_att_of(i: usize) -> NegAtt {
    if i > 0 {
        NegAtt::Clip
    } else {
        NegAtt::Allow
    }
}

/// The label shown for the atom index `i`.
pub open spec fn neg_att_label_of(i: usize) -> Seq<char> {
    if i == 0 {
        "Allow"@
    } else if i == 1 {
        "Clip"@
    } else {
        "?"@
    }
}

impl NegAtt {
    pub fn from_index(i: usize) -> (r: NegAtt)
        ensures
            r == neg_att_of(i),
    {
        if i > 0 {
            NegAtt::Clip
        } else {
            NegAtt::Allow
        }
    }
}

/// The label of the negative attenuation atom at index `i`; an index
/// outside the set renders as "?".
pub fn neg_att_label(i: usize) -> (r: &'static str)
    ensures
        r@ == neg_att_label_of(i),
{
    if i == 0 {
        "Allow"
    } else if i == 1 {
        "Clip"
    } else {
        "?"
    }
}

/// A simple amplifier; it keeps no state between blocks.
#[derive(Debug, Clone)]
pub struct Amp {}

impl Amp {
    pub fn new() -> (a: Self) {
        Amp {}
    }

    /// The number of outputs: the amplified signal.
    pub fn outputs() -> (r: usize)
        ensures
            r == 1,
    {
        1
    }

    /// Nothing to clear: the amplifier is stateless.
    pub fn reset(&mut self)
        ensures
            *final(self) == *old(self),
    {
    }
}

} // verus!
