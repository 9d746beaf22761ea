use vstd::prelude::*;

use crate::animation::{Animation, AnimationView};
use crate::head::{Head, HeadView};
use crate::suit::{Suit, SuitView};

verus! {

/// What an optional head holds.
pub open spec fn opt_head(o: Option<Head>) -> Option<HeadView> {
    match o {
        Some(h) => Some(h@),
        None => None,
    }
}

/// What a [`Cog`] holds.
pub struct CogView {
    /// The suit.
    pub suit: SuitView,
    /// The head, if the cog has one of its own.
    pub head: Option<HeadView>,
    /// The animation.
    pub animation: AnimationView,
}

/// A cog: the suit it wears, its head, and the animation it performs. Without a
/// head of its own the cog wears the one that its suit's model brings.
#[derive(Debug)]
pub struct Cog {
    suit: Suit,
    head: Option<Head>,
    animation: Animation,
}

impl View for Cog {
    type V = CogView;

    closed spec fn view(&self) -> CogView {
        CogView {
            suit: self.suit@,
            head: opt_head(self.head),
            animation: self.animation@,
        }
    }
}

impl Cog {
    /// Builds a cog from its parts, which it owns from then on.
    pub fn new(suit: Suit, animation: Animation, head: Option<Head>) -> (r: Cog)
        ensures
            r@ == (CogView {
                suit: suit@,
                head: opt_head(head),
                animation: animation@,
            }),
    {
        Cog { suit, head, animation }
    }

    /// Reads `suit`.
    pub fn suit(&self) -> (r: &Suit)
        ensures
            r@ == self@.suit,
    {
        &self.suit
    }

    /// Replaces `suit`, leaving every other field as it was.
    pub fn set_suit(&mut self, suit: Suit)
        ensures
            final(self)@ == (CogView { suit: suit@, ..old(self)@ }),
    {
        self.suit = suit;
    }

    /// Reads `head`.
    pub fn head(&self) -> (r: &Option<Head>)
        ensures
            opt_head(*r) == self@.head,
    {
        &self.head
    }

    /// Replaces `head`, leaving every other field as it was.
    pub fn set_head(&mut self, head: Option<Head>)
        ensures
            final(self)@ == (CogView { head: opt_head(head), ..old(self)@ }),
    {
        self.head = head;
    }

    /// Reads `animation`.
    pub fn animation(&self) -> (r: &Animation)
        ensures
            r@ == self@.animation,
    {
        &self.animation
    }

    /// Replaces `animation`, leaving every other field as it was.
    pub fn set_animation(&mut self, animation: Animation)
        ensures
            final(self)@ == (CogView { animation: animation@, ..old(self)@ }),
    {
        self.animation = animation;
    }
}

} // verus!
