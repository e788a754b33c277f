//! The quad geometry of one texture cell: four corner vertices whose
//! positions and texture coordinates are exact ratios of the inputs. A
//! renderer divides each ratio at the very end; until then every coordinate
//! is a pair of integers, so the statements about them are exact.

use vstd::prelude::*;

use crate::extent::{Extent2D, Ratio};

verus! {

/// One corner of a textured quad: a position and a texture coordinate,
/// both as exact ratios (the position's z is always zero).
#[derive(PartialEq, Eq, Clone, Copy, Debug)]
pub struct QuadVertex {
    pub position: [Ratio; 2],
    pub tex_coords: [Ratio; 2],
}

/// The four corners of one texture cell's quad, top-right first, walking
/// counter-clockwise: the UV rectangle spans from the cell's pixel offset
/// to that offset plus the cell's extent, both over the atlas dimensions.
#[derive(Debug)]
pub struct VertexGroup2D {
    pub vertices: [QuadVertex; 4],
}

impl VertexGroup2D {
    /// Builds the quad for a cell of `texture_width` by `texture_height`
    /// pixels sitting at `texture_offset` in an atlas of
    /// `atlas_dimensions`, on a screen of the given extent. The quad is ten
    /// screen-widths-per-texture-width wide, mirroring the draw scale of
    /// the renderer this geometry feeds.
    pub fn new(
        texture_width: u32,
        texture_height: u32,
        screen_width: u32,
        screen_height: u32,
        atlas_dimensions: Extent2D,
        texture_offset: [u32; 2],
    ) -> (r: Self)
        requires
            10 * texture_width <= u32::MAX,
            10 * texture_height <= u32::MAX,
            texture_offset[0] + texture_width <= u32::MAX,
            texture_offset[1] + texture_height <= u32::MAX,
        ensures
            r.vertices[0] == (QuadVertex {
                position: [
                    Ratio { num: (10 * texture_width) as u32, den: screen_width },
                    Ratio { num: (10 * texture_height) as u32, den: screen_height },
                ],
                tex_coords: [
                    Ratio { num: (texture_offset[0] + texture_width) as u32, den: atlas_dimensions.width },
                    Ratio { num: texture_offset[1], den: atlas_dimensions.height },
                ],
            }),
            r.vertices[1] == (QuadVertex {
                position: [
                    Ratio { num: 0, den: screen_width },
                    Ratio { num: (10 * texture_height) as u32, den: screen_height },
                ],
                tex_coords: [
                    Ratio { num: texture_offset[0], den: atlas_dimensions.width },
                    Ratio { num: texture_offset[1], den: atlas_dimensions.height },
                ],
            }),
            r.vertices[2] == (QuadVertex {
                position: [
                    Ratio { num: 0, den: screen_width },
                    Ratio { num: 0, den: screen_height },
                ],
                tex_coords: [
                    Ratio { num: texture_offset[0], den: atlas_dimensions.width },
                    Ratio { num: (texture_offset[1] + texture_height) as u32, den: atlas_dimensions.height },
                ],
            }),
            r.vertices[3] == (QuadVertex {
                position: [
                    Ratio { num: (10 * texture_width) as u32, den: screen_width },
                    Ratio { num: 0, den: screen_height },
                ],
                tex_coords: [
                    Ratio { num: (texture_offset[0] + texture_width) as u32, den: atlas_dimensions.width },
                    Ratio { num: (texture_offset[1] + texture_height) as u32, den: atlas_dimensions.height },
                ],
            }),
    {
        let width = Ratio { num: 10 * texture_width, den: screen_width };
        let height = Ratio { num: 10 * texture_height, den: screen_height };
        let zero_w = Ratio { num: 0, den: screen_width };
        let zero_h = Ratio { num: 0, den: screen_height };
        let tex_w1 = Ratio { num: texture_offset[0], den: atlas_dimensions.width };
        let tex_h1 = Ratio { num: texture_offset[1], den: atlas_dimensions.height };
        let tex_w2 = Ratio {
            num: texture_offset[0] + texture_width,
            den: atlas_dimensions.width,
        };
        let tex_h2 = Ratio {
            num: texture_offset[1] + texture_height,
            den: atlas_dimensions.height,
        };
        let vertices = [
            QuadVertex { position: [width, height], tex_coords: [tex_w2, tex_h1] },
            QuadVertex { position: [zero_w, height], tex_coords: [tex_w1, tex_h1] },
            QuadVertex { position: [zero_w, zero_h], tex_coords: [tex_w1, tex_h2] },
            QuadVertex { position: [width, zero_h], tex_coords: [tex_w2, tex_h2] },
        ];
        VertexGroup2D { vertices }
    }

    /// The quad's four corners.
    pub fn vertices(&self) -> (r: &[QuadVertex; 4])
        ensures
            *r == self.vertices,
    {
        &self.vertices
    }
}

} // verus!
