//! The vertex attributes the shader reads.
use vstd::prelude::*;

verus! {

/// The shader's vertex inputs: `pos` (two floats), `uv` (two floats) and
/// `col` (four normalized bytes).
#[derive(Clone, Copy, Debug, PartialEq, Eq, Structural)]
pub enum Semantics {
    Position,
    TexCoord,
    Color,
}

/// The attribute slot of each input, in declaration order.
pub open spec fn semantics_index(s: Semantics) -> usize {
    match s {
        Semantics::Position => 0,
        Semantics::TexCoord => 1,
        Semantics::Color => 2,
    }
}

/// The name under which the shader declares each input.
pub open spec fn semantics_name(s: Semantics) -> Seq<char> {
    match s {
        Semantics::Position => seq!['p', 'o', 's'],
        Semantics::TexCoord => seq!['u', 'v'],
        Semantics::Color => seq!['c', 'o', 'l'],
    }
}

impl Semantics {
    /// The attribute slot of this input.
    pub fn index(&self) -> (r: usize)
        ensures
            r == semantics_index(*self),
    {
        match self {
            Semantics::Position => 0,
            Semantics::TexCoord => 1,
            Semantics::Color => 2,
        }
    }

    /// The shader name of this input.
    pub fn name(&self) -> (r: &'static str)
        ensures
            r@ == semantics_name(*self),
    {
        match self {
            Semantics::Position => {
                proof {
                    reveal_strlit("pos");
                }
                "pos"
            },
            Semantics::TexCoord => {
                proof {
                    reveal_strlit("uv");
                }
                "uv"
            },
            Semantics::Color => {
                proof {
                    reveal_strlit("col");
                }
                "col"
            },
        }
    }
}

} // verus!
