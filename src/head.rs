use vstd::prelude::*;

use crate::opt_text;

verus! {

/// What a [`Head`] holds.
pub struct HeadView {
    /// Path of the head bundle.
    pub file: Seq<char>,
    /// Name of the head node within the bundle.
    pub node: Seq<char>,
    /// Texture that replaces the node's own, if any.
    pub texture: Option<Seq<char>>,
    /// Colour that replaces the node's own, if any.
    pub color: Option<Seq<char>>,
}

/// The head of a cog: a named node of a head bundle, with optional overrides
/// of the node's own texture and colour.
#[derive(Clone, Debug)]
pub struct Head {
    file: String,
    node: String,
    texture: Option<String>,
    color: Option<String>,
}

impl View for Head {
    type V = HeadView;

    closed spec fn view(&self) -> HeadView {
        HeadView {
            file: self.file@,
            node: self.node@,
            texture: opt_text(self.texture),
            color: opt_text(self.color),
        }
    }
}

impl Head {
    /// Builds a head from each of its fields, unchecked.
    pub fn new(
        file: String,
        node: String,
        texture: Option<String>,
        color: Option<String>,
    ) -> (r: Head)
        ensures
            r@ == (HeadView {
                file: file@,
                node: node@,
                texture: opt_text(texture),
                color: opt_text(color),
            }),
    {
        Head { file, node, texture, color }
    }

    /// Reads `file`.
    pub fn file(&self) -> (r: &String)
        ensures
            r@ == self@.file,
    {
        &self.file
    }

    /// Replaces `file`, leaving every other field as it was.
    pub fn set_file(&mut self, file: String)
        ensures
            final(self)@ == (HeadView { file: file@, ..old(self)@ }),
    {
        self.file = file;
    }

    /// Reads `node`.
    pub fn node(&self) -> (r: &String)
        ensures
            r@ == self@.node,
    {
        &self.node
    }

    /// Replaces `node`, leaving every other field as it was.
    pub fn set_node(&mut self, node: String)
        ensures
            final(self)@ == (HeadView { node: node@, ..old(self)@ }),
    {
        self.node = node;
    }

    /// Reads `texture`.
    pub fn texture(&self) -> (r: &Option<String>)
        ensures
            opt_text(*r) == self@.texture,
    {
        &self.texture
    }

    /// Replaces `texture`, leaving every other field as it was.
    pub fn set_texture(&mut self, texture: Option<String>)
        ensures
            final(self)@ == (HeadView { texture: opt_text(texture), ..old(self)@ }),
    {
        self.texture = texture;
    }

    /// Reads `color`.
    pub fn color(&self) -> (r: &Option<String>)
        ensures
            opt_text(*r) == self@.color,
    {
        &self.color
    }

    /// Replaces `color`, leaving every other field as it was.
    pub fn set_color(&mut self, color: Option<String>)
        ensures
            final(self)@ == (HeadView { color: opt_text(color), ..old(self)@ }),
    {
        self.color = color;
    }
}

} // verus!
