//! Identifiers used throughout the crate: textures, layers, backgrounds and
//! bind groups are all referred to by small id values.

use vstd::prelude::*;

verus! {

/// Identifies one logical texture. Within a layer every texture id is unique;
/// entities name the texture they want drawn with by this id.
#[derive(Debug)]
pub struct TextureID(pub String);

impl View for TextureID {
    type V = Seq<char>;

    open spec fn view(&self) -> Seq<char> {
        self.0@
    }
}

impl TextureID {
    /// The id as a borrowed string.
    pub fn as_str(&self) -> (r: &str)
        ensures
            r@ == self@,
    {
        self.0.as_str()
    }

    /// An owned copy of this id.
    pub fn duplicate(&self) -> (r: Self)
        ensures
            r@ == self@,
    {
        TextureID(self.0.clone())
    }

    /// Whether two ids name the same texture.
    pub fn same(&self, other: &TextureID) -> (r: bool)
        ensures
            r == (self@ == other@),
    {
        self.0 == other.0
    }
}

/// Identifies one background image.
#[derive(Debug)]
pub struct BackgroundID(pub String);

impl View for BackgroundID {
    type V = Seq<char>;

    open spec fn view(&self) -> Seq<char> {
        self.0@
    }
}

/// Identifies one layer: the unit of batching, drawn with a single call.
#[derive(PartialEq, Eq, Structural, Clone, Copy, Debug)]
pub struct LayerID(pub u32);

/// Identifies one GPU bind group.
#[derive(PartialEq, Eq, Structural, Clone, Copy, Debug)]
pub struct BindGroupID(pub u32);

} // verus!
