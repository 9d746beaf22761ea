//! Plain records that describe a cog to a 3D engine's asset loader: its suit,
//! its head, its animation, and the head nodes of each head bundle.
use vstd::prelude::*;

mod animation;
mod cog;
mod head;
mod heads;
mod suit;

pub use animation::{Animation, AnimationView};
pub use cog::{Cog, CogView};
pub use head::{Head, HeadView};
pub use heads::{suita_heads, suitb_heads, suitc_heads};
pub use suit::{Rgba, Suit, SuitView};

verus! {

/// The text of an optional string.
pub open spec fn opt_text(o: Option<String>) -> Option<Seq<char>> {
    match o {
        Some(s) => Some(s@),
        None => None,
    }
}

} // verus!
