//! Texture records: the identity and placement metadata of one logical
//! texture once it has been packed into a layer's atlas.

use vstd::prelude::*;

use crate::id::TextureID;

verus! {

/// What a caller supplies to describe one texture before any pixel data is
/// decoded: its id, where its image lives, and whether it should be sampled
/// as pixel art (nearest neighbour) or filtered.
#[derive(Debug)]
pub struct TextureDescriptor2D {
    pub id: TextureID,
    pub path: String,
    pub pixel_art: bool,
}

impl TextureDescriptor2D {
    /// A new descriptor for the texture named `id` whose image is at `path`.
    pub fn new(id: TextureID, path: String, pixel_art: bool) -> (r: Self)
        ensures
            r.id@ == id@,
            r.path@ == path@,
            r.pixel_art == pixel_art,
    {
        Self { id, path, pixel_art }
    }
}

/// One logical texture of a layer. Before packing only the id and path are
/// meaningful; packing assigns the cell index, the pixel offset inside the
/// atlas, and the (uniform) cell dimensions. After the atlas is built the
/// record is never mutated again.
#[derive(Debug)]
pub struct Texture2D {
    pub id: TextureID,
    pub path: String,
    pub width: u32,
    pub height: u32,
    pub index: Option<[u32; 2]>,
    pub offset: Option<[u32; 2]>,
}

impl Texture2D {
    /// A fresh, unplaced record for the texture named `id` at `path`.
    pub fn new(id: TextureID, path: String) -> (r: Self)
        ensures
            r.id@ == id@,
            r.path@ == path@,
            r.width == 0,
            r.height == 0,
            r.index is None,
            r.offset is None,
    {
        Self { id, path, width: 0, height: 0, index: None, offset: None }
    }

    /// Where this texture's image file lives.
    pub fn file_path(&self) -> (r: &str)
        ensures
            r@ == self.path@,
    {
        self.path.as_str()
    }

    /// The id this texture is looked up by.
    pub fn id(&self) -> (r: &TextureID)
        ensures
            r@ == self.id@,
    {
        &self.id
    }

    /// The `[column, row]` cell this texture occupies in its atlas, if it has
    /// been placed.
    pub fn index(&self) -> (r: Option<[u32; 2]>)
        ensures
            r == self.index,
    {
        self.index
    }

    /// The pixel position of this texture's top-left corner inside the
    /// atlas, if it has been placed.
    pub fn offset(&self) -> (r: Option<[u32; 2]>)
        ensures
            r == self.offset,
    {
        self.offset
    }

    /// Records the atlas pixel position of this texture.
    pub fn set_offset(&mut self, x: u32, y: u32)
        ensures
            *final(self) == (Texture2D { offset: Some([x, y]), ..*old(self) }),
    {
        self.offset = Some([x, y]);
    }

    /// Records the pixel dimensions this texture was packed at.
    pub fn set_dimensions(&mut self, width: u32, height: u32)
        ensures
            *final(self) == (Texture2D { width, height, ..*old(self) }),
    {
        self.width = width;
        self.height = height;
    }

    /// Records the atlas grid cell this texture occupies.
    pub fn set_index(&mut self, column: u32, row: u32)
        ensures
            *final(self) == (Texture2D { index: Some([column, row]), ..*old(self) }),
    {
        self.index = Some([column, row]);
    }

    /// The pixel width this texture was packed at.
    pub fn width(&self) -> (r: u32)
        ensures
            r == self.width,
    {
        self.width
    }

    /// The pixel height this texture was packed at.
    pub fn height(&self) -> (r: u32)
        ensures
            r == self.height,
    {
        self.height
    }
}

} // verus!
