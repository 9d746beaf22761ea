use vstd::prelude::*;

use crate::opt_text;

verus! {

/// A colour for the engine, each channel held as the bit pattern of an IEEE-754
/// single-precision number meant to lie in [0, 1].
#[derive(Clone, Copy, Debug, PartialEq, Eq)]
pub struct Rgba {
    /// Red.
    pub red: u32,
    /// Green.
    pub green: u32,
    /// Blue.
    pub blue: u32,
    /// Alpha.
    pub alpha: u32,
}

/// What a [`Suit`] holds.
pub struct SuitView {
    /// The suit model.
    pub model: Seq<char>,
    /// The department sigil (`SalesIcon`, `CorpIcon`, `LegalIcon` or `MoneyIcon`), if any.
    pub sigil: Option<Seq<char>>,
    /// Texture of the torso.
    pub torso: Seq<char>,
    /// Texture of the arms.
    pub arms: Seq<char>,
    /// Texture of the legs.
    pub legs: Seq<char>,
    /// Colour of the hands.
    pub hands: Rgba,
}

/// The suit that a cog wears: its model, its department sigil and the textures
/// and hand colour laid on it.
#[derive(Clone, Debug)]
pub struct Suit {
    model: String,
    sigil: Option<String>,
    torso: String,
    arms: String,
    legs: String,
    hands: Rgba,
}

impl View for Suit {
    type V = SuitView;

    closed spec fn view(&self) -> SuitView {
        SuitView {
            model: self.model@,
            sigil: opt_text(self.sigil),
            torso: self.torso@,
            arms: self.arms@,
            legs: self.legs@,
            hands: self.hands,
        }
    }
}

impl Suit {
    /// Builds a suit from each of its fields, unchecked: a hand colour out of [0, 1]
    /// is kept as given.
    pub fn new(
        model: String,
        torso: String,
        arms: String,
        legs: String,
        hands: Rgba,
        sigil: Option<String>,
    ) -> (r: Suit)
        ensures
            r@ == (SuitView {
                model: model@,
                sigil: opt_text(sigil),
                torso: torso@,
                arms: arms@,
                legs: legs@,
                hands: hands,
            }),
    {
        Suit { model, sigil, torso, arms, legs, hands }
    }

    /// Reads `model`.
    pub fn model(&self) -> (r: &String)
        ensures
            r@ == self@.model,
    {
        &self.model
    }

    /// Replaces `model`, leaving every other field as it was.
    pub fn set_model(&mut self, model: String)
        ensures
            final(self)@ == (SuitView { model: model@, ..old(self)@ }),
    {
        self.model = model;
    }

    /// Reads `sigil`.
    pub fn sigil(&self) -> (r: &Option<String>)
        ensures
            opt_text(*r) == self@.sigil,
    {
        &self.sigil
    }

    /// Replaces `sigil`, leaving every other field as it was.
    pub fn set_sigil(&mut self, sigil: Option<String>)
        ensures
            final(self)@ == (SuitView { sigil: opt_text(sigil), ..old(self)@ }),
    {
        self.sigil = sigil;
    }

    /// Reads `torso`.
    pub fn torso(&self) -> (r: &String)
        ensures
            r@ == self@.torso,
    {
        &self.torso
    }

    /// Replaces `torso`, leaving every other field as it was.
    pub fn set_torso(&mut self, torso: String)
        ensures
            final(self)@ == (SuitView { torso: torso@, ..old(self)@ }),
    {
        self.torso = torso;
    }

    /// Reads `arms`.
    pub fn arms(&self) -> (r: &String)
        ensures
            r@ == self@.arms,
    {
        &self.arms
    }

    /// Replaces `arms`, leaving every other field as it was.
    pub fn set_arms(&mut self, arms: String)
        ensures
            final(self)@ == (SuitView { arms: arms@, ..old(self)@ }),
    {
        self.arms = arms;
    }

    /// Reads `legs`.
    pub fn legs(&self) -> (r: &String)
        ensures
            r@ == self@.legs,
    {
        &self.legs
    }

    /// Replaces `legs`, leaving every other field as it was.
    pub fn set_legs(&mut self, legs: String)
        ensures
            final(self)@ == (SuitView { legs: legs@, ..old(self)@ }),
    {
        self.legs = legs;
    }

    /// Reads `hands`.
    pub fn hands(&self) -> (r: Rgba)
        ensures
            r == self@.hands,
    {
        self.hands
    }

    /// Replaces `hands`, leaving every other field as it was.
    pub fn set_hands(&mut self, hands: Rgba)
        ensures
            final(self)@ == (SuitView { hands: hands, ..old(self)@ }),
    {
        self.hands = hands;
    }
}

} // verus!
