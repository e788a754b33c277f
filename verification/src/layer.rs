//! Layers: the unit of batching. A layer owns the records of its textures,
//! the packed atlas that holds their pixels, and the bookkeeping of the
//! per-entity instance buffer — how many instances are live and how many
//! the GPU allocation can hold. A layer is built in two steps, mirroring
//! its life: `packed` does every pixel computation with no GPU in sight,
//! `upload` turns the packed data into GPU resources.

use vstd::prelude::*;

use crate::allocator::{ArenaBuffer, BufferAllocator};
use crate::atlas;
use crate::atlas::{AtlasLayout, CellImage, MAX_ATLAS_HEIGHT, MAX_ATLAS_WIDTH};
use crate::entity::{instance_bytes, serialize_instance, Entity2D, INSTANCE_STRIDE};
use crate::error::EffectError;
use crate::extent::{Extent2D, RatioSize};
use crate::gpu;
use crate::id::{LayerID, TextureID};
use crate::image_data::conform_images;
use crate::texture::Texture2D;

verus! {

/// The first texture record whose id matches, scanning in order.
pub open spec fn spec_find_texture(ts: Seq<Texture2D>, id: Seq<char>) -> Option<Texture2D>
    decreases ts.len(),
{
    if ts.len() == 0 {
        None
    } else if ts[0].id@ == id {
        Some(ts[0])
    } else {
        spec_find_texture(ts.drop_first(), id)
    }
}

/// Searching a sequence whose first `j` records do not match is searching
/// the rest.
proof fn lemma_find_texture_skip(ts: Seq<Texture2D>, id: Seq<char>, j: int)
    requires
        0 <= j <= ts.len(),
        forall|k: int| 0 <= k < j ==> (#[trigger] ts[k]).id@ != id,
    ensures
        spec_find_texture(ts, id) == spec_find_texture(ts.skip(j), id),
    decreases j,
{
    if j > 0 {
        lemma_find_texture_skip(ts, id, j - 1);
        let rest = ts.skip(j - 1);
        assert(rest[0] == ts[j - 1]);
        assert(rest.drop_first() =~= ts.skip(j));
    } else {
        assert(ts.skip(0) =~= ts);
    }
}

/// A record that the search returns is one of the records searched, and
/// carries the id searched for.
pub proof fn lemma_find_texture_found(ts: Seq<Texture2D>, id: Seq<char>, t: Texture2D)
    requires
        spec_find_texture(ts, id) == Some(t),
    ensures
        exists|j: int| 0 <= j < ts.len() && ts[j] == t,
        t.id@ == id,
    decreases ts.len(),
{
    if ts[0].id@ == id {
        assert(ts[0] == t);
    } else {
        lemma_find_texture_found(ts.drop_first(), id, t);
        let j = choose|j: int| 0 <= j < ts.drop_first().len() && ts.drop_first()[j] == t;
        assert(ts[j + 1] == t);
    }
}

/// In a record list with pairwise distinct ids — as every layer's is —
/// looking a record's own id up finds exactly that record.
pub proof fn lemma_lookup_of_unique_id(ts: Seq<Texture2D>, i: int)
    requires
        forall|j: int, k: int| 0 <= j < k < ts.len() ==> ts[j].id@ != ts[k].id@,
        0 <= i < ts.len(),
    ensures
        spec_find_texture(ts, ts[i].id@) == Some(ts[i]),
{
    assert forall|k: int| 0 <= k < i implies (#[trigger] ts[k]).id@ != ts[i].id@ by {}
    lemma_find_texture_skip(ts, ts[i].id@, i);
    assert(ts.skip(i)[0] == ts[i]);
}

/// A layer holds a texture id exactly when one of its records carries it.
pub proof fn lemma_has_texture_exists(l: Layer2D, id: Seq<char>)
    ensures
        l.has_texture(id) <==> exists|j: int|
            0 <= j < l.textures@.len() && (#[trigger] l.textures@[j]).id@ == id,
{
    if l.has_texture(id) {
        let t = spec_find_texture(l.textures@, id)->0;
        lemma_find_texture_found(l.textures@, id, t);
        let j = choose|j: int| 0 <= j < l.textures@.len() && l.textures@[j] == t;
        assert(l.textures@[j].id@ == id);
    }
    if exists|j: int| 0 <= j < l.textures@.len() && (#[trigger] l.textures@[j]).id@ == id {
        let j = choose|j: int| 0 <= j < l.textures@.len() && (#[trigger] l.textures@[j]).id@ == id;
        lemma_find_first_match(l.textures@, id, j);
    }
}

/// Searching for an id that some record carries finds a record.
proof fn lemma_find_first_match(ts: Seq<Texture2D>, id: Seq<char>, j: int)
    requires
        0 <= j < ts.len(),
        ts[j].id@ == id,
    ensures
        spec_find_texture(ts, id) is Some,
    decreases ts.len(),
{
    if ts[0].id@ == id {
    } else {
        assert(j != 0);
        assert(ts.drop_first()[j - 1] == ts[j]);
        lemma_find_first_match(ts.drop_first(), id, j - 1);
    }
}

/// The GPU half of a layer: one bind group for the whole atlas (none when
/// the layer has no textures and degenerates to a no-draw state), the quad
/// geometry, and the growable instance buffer.
#[derive(Debug)]
pub struct LayerResources {
    pub bind_group: Option<wgpu::BindGroup>,
    pub vertex_buffer: ArenaBuffer,
    pub index_buffer: ArenaBuffer,
    pub entity_buffer: ArenaBuffer,
}

impl LayerResources {
    /// The buffers carry their advertised usages, and the instance buffer's
    /// allocation and meaningful prefix track the layer's instance counts.
    pub open spec fn wf(&self, entity_maximum: int, staged_len: int) -> bool {
        &&& self.vertex_buffer.wf()
        &&& !self.vertex_buffer.index
        &&& self.index_buffer.wf()
        &&& self.index_buffer.index
        &&& self.entity_buffer.wf()
        &&& !self.entity_buffer.index
        &&& self.entity_buffer.capacity == entity_maximum * INSTANCE_STRIDE
        &&& self.entity_buffer.size == staged_len
    }
}

/// One layer: its identity, its texture records (each placed in the atlas),
/// the packed atlas, the per-layer UV scale, and the instance bookkeeping.
/// `entity_count` is how many instances are live; `entity_maximum` is how
/// many the GPU allocation holds room for — it only ever grows.
#[derive(Debug)]
pub struct Layer2D {
    pub id: LayerID,
    pub dimensions: Extent2D,
    pub textures: Vec<Texture2D>,
    pub atlas: AtlasLayout,
    pub tex_coord_size: RatioSize,
    pub pixel_art: bool,
    pub entity_count: usize,
    pub entity_maximum: usize,
    pub staged: Vec<u8>,
    pub gpu: Option<LayerResources>,
}

impl Layer2D {
    /// The layer's internal consistency: every record is placed, ids are
    /// unique, the staged bytes hold exactly one record per live instance,
    /// the live count fits the allocation, the atlas fits its hard maximum,
    /// and the GPU half — once it exists — matches the bookkeeping.
    pub open spec fn wf(&self) -> bool {
        &&& forall|j: int|
            0 <= j < self.textures@.len() ==> (#[trigger] self.textures@[j]).index is Some
        &&& forall|j: int, k: int|
            0 <= j < k < self.textures@.len() ==> self.textures@[j].id@ != self.textures@[k].id@
        &&& self.entity_count <= self.entity_maximum
        &&& self.entity_maximum * INSTANCE_STRIDE <= usize::MAX
        &&& self.staged@.len() == self.entity_count * INSTANCE_STRIDE
        &&& self.atlas.width <= MAX_ATLAS_WIDTH
        &&& self.atlas.height <= MAX_ATLAS_HEIGHT
        &&& self.atlas.pixels@.len() == 4 * (self.atlas.width as int) * (self.atlas.height as int)
        &&& self.gpu matches Some(res) ==> res.wf(
            self.entity_maximum as int,
            self.staged@.len() as int,
        )
    }

    /// Whether some record of this layer carries `id`.
    pub open spec fn has_texture(&self, id: Seq<char>) -> bool {
        spec_find_texture(self.textures@, id) is Some
    }

    /// The atlas cell index of the texture named `id`, if the layer holds it.
    pub open spec fn spec_texture_index(&self, id: Seq<char>) -> Option<[u32; 2]> {
        match spec_find_texture(self.textures@, id) {
            Some(t) => t.index,
            None => None,
        }
    }

    /// Looks up the record of the texture named `id`.
    pub fn get_texture(&self, id: &TextureID) -> (r: Option<&Texture2D>)
        ensures
            match r {
                Some(t) => spec_find_texture(self.textures@, id@) == Some(*t),
                None => spec_find_texture(self.textures@, id@) is None,
            },
    {
        find_record(&self.textures, id)
    }

    /// Whether the layer holds a texture named `id`.
    pub fn contains_texture(&self, id: &TextureID) -> (r: bool)
        ensures
            r == self.has_texture(id@),
    {
        self.get_texture(id).is_some()
    }

    /// The layer's id.
    pub fn layer_id(&self) -> (r: LayerID)
        ensures
            r == self.id,
    {
        self.id
    }

    /// The normalized extent of one atlas cell, shared by every texture of
    /// the layer.
    pub fn tex_coord_size(&self) -> (r: RatioSize)
        ensures
            r == self.tex_coord_size,
    {
        self.tex_coord_size
    }

    /// The atlas's final pixel dimensions.
    pub fn atlas_dimensions(&self) -> (r: Extent2D)
        ensures
            r.width == self.atlas.width,
            r.height == self.atlas.height,
    {
        Extent2D { width: self.atlas.width, height: self.atlas.height }
    }

    /// How many instances are live: the draw call's instance range is
    /// exactly `[0, entity_count)`, whatever the allocation holds.
    pub fn entity_count(&self) -> (r: usize)
        ensures
            r == self.entity_count,
    {
        self.entity_count
    }

    /// How many instances the GPU allocation has room for.
    pub fn entity_maximum(&self) -> (r: usize)
        ensures
            r == self.entity_maximum,
    {
        self.entity_maximum
    }

    /// How many indices one draw of this layer consumes: six per instance.
    pub fn index_count(&self) -> (r: usize)
        requires
            self.wf(),
        ensures
            r == 6 * self.entity_count,
    {
        let staged_len = self.staged.len();
        assert(6 * self.entity_count <= staged_len);
        6 * self.entity_count
    }

    /// The instance range a draw of this layer uses: always starting at
    /// zero and covering exactly the live instances.
    pub fn instance_range(&self) -> (r: (usize, usize))
        ensures
            r.0 == 0,
            r.1 == self.entity_count,
    {
        (0, self.entity_count)
    }

    /// The serialized instance records of the live entities, as staged for
    /// (and mirrored in) the GPU buffer.
    pub fn entity_bytes(&self) -> (r: &Vec<u8>)
        ensures
            r@ == self.staged@,
    {
        &self.staged
    }

    /// The layer's bind group, once resident; a layer with no textures has
    /// none and is simply not drawn.
    pub fn bind_group(&self) -> (r: Option<&wgpu::BindGroup>)
        ensures
            r is Some <==> (self.gpu matches Some(g) && g.bind_group is Some),
    {
        match &self.gpu {
            Some(res) => res.bind_group.as_ref(),
            None => None,
        }
    }

    /// The ids of every texture this layer holds, in record order.
    pub fn texture_ids(&self) -> (r: Vec<&TextureID>)
        ensures
            r@.len() == self.textures@.len(),
            forall|j: int| 0 <= j < r@.len() ==> (#[trigger] r@[j])@ == self.textures@[j].id@,
    {
        let n = self.textures.len();
        let mut out: Vec<&TextureID> = Vec::new();
        let mut j: usize = 0;
        while j < n
            invariant
                j <= n,
                n == self.textures@.len(),
                out@.len() == j,
                forall|t: int| 0 <= t < j ==> (#[trigger] out@[t])@ == self.textures@[t].id@,
            decreases n - j,
        {
            out.push(&self.textures[j].id);
            j += 1;
        }
        out
    }

    /// Everything one draw of this layer consumes: the bind group, the
    /// vertex, index and instance buffers, and the live instance count —
    /// the draw's instance range is `[0, count)`. `None` for a layer that
    /// is not resident, or has no textures and so draws nothing.
    pub fn draw_handles(&self) -> (r: Option<
        (&wgpu::BindGroup, &wgpu::Buffer, &wgpu::Buffer, &wgpu::Buffer, usize),
    >)
        ensures
            r is Some <==> (self.gpu matches Some(g) && g.bind_group is Some),
            r matches Some(h) ==> h.4 == self.entity_count,
    {
        match &self.gpu {
            Some(res) => match &res.bind_group {
                Some(bg) => Some(
                    (
                        bg,
                        &res.vertex_buffer.buffer,
                        &res.index_buffer.buffer,
                        &res.entity_buffer.buffer,
                        self.entity_count,
                    ),
                ),
                None => None,
            },
            None => None,
        }
    }
}

/// The bytes of one quad's six indices — two triangles — as little-endian
/// 16-bit words: 0 1 2, 0 2 3.
pub open spec fn quad_index_bytes() -> Seq<u8> {
    seq![0u8, 0u8, 1u8, 0u8, 2u8, 0u8, 0u8, 0u8, 2u8, 0u8, 3u8, 0u8]
}

/// Builds the quad's index data.
fn make_quad_index_bytes() -> (r: Vec<u8>)
    ensures
        r@ == quad_index_bytes(),
{
    let mut v: Vec<u8> = Vec::new();
    v.push(0);
    v.push(0);
    v.push(1);
    v.push(0);
    v.push(2);
    v.push(0);
    v.push(0);
    v.push(0);
    v.push(2);
    v.push(0);
    v.push(3);
    v.push(0);
    proof {
        assert(v@ =~= quad_index_bytes());
    }
    v
}

/// The instance records of `es`, serialized one after another: each from
/// the entity's transform, the cell index its texture occupies in `ts`, and
/// the layer-wide cell extent `size`.
pub open spec fn staged_instance_bytes(ts: Seq<Texture2D>, size: RatioSize, es: Seq<Entity2D>) -> Seq<u8>
    decreases es.len(),
{
    if es.len() == 0 {
        Seq::empty()
    } else {
        instance_bytes(es[0].transform@, found_index(ts, es[0].texture@), size)
            + staged_instance_bytes(ts, size, es.drop_first())
    }
}

/// The cell index of the record carrying `id`, where there is one.
pub open spec fn found_index(ts: Seq<Texture2D>, id: Seq<char>) -> [u32; 2] {
    match spec_find_texture(ts, id) {
        Some(t) => match t.index {
            Some(ix) => ix,
            None => [0, 0],
        },
        None => [0, 0],
    }
}

/// Serializing one more entity appends its record.
proof fn lemma_staged_bytes_push(ts: Seq<Texture2D>, size: RatioSize, es: Seq<Entity2D>, e: Entity2D)
    ensures
        staged_instance_bytes(ts, size, es.push(e)) == staged_instance_bytes(ts, size, es)
            + instance_bytes(e.transform@, found_index(ts, e.texture@), size),
    decreases es.len(),
{
    if es.len() == 0 {
        assert(es.push(e).drop_first() =~= es);
        assert(staged_instance_bytes(ts, size, es.push(e)) =~= staged_instance_bytes(ts, size, es)
            + instance_bytes(e.transform@, found_index(ts, e.texture@), size));
    } else {
        assert(es.push(e).drop_first() =~= es.drop_first().push(e));
        lemma_staged_bytes_push(ts, size, es.drop_first(), e);
        assert(staged_instance_bytes(ts, size, es.push(e)) =~= staged_instance_bytes(ts, size, es)
            + instance_bytes(e.transform@, found_index(ts, e.texture@), size));
    }
}

/// What building a layer from `images` under `texture_size` guarantees,
/// GPU state aside: one placed record per image, in input order, with the
/// atlas the packer promises and the per-layer UV scale derived from it.
pub open spec fn packed_from(
    l: Layer2D,
    id: LayerID,
    dimensions: Extent2D,
    images: Seq<CellImage>,
    texture_size: Extent2D,
    pixel_art: bool,
) -> bool {
    let n = images.len() as int;
    let wc = atlas::cells_per_row(MAX_ATLAS_WIDTH as int, texture_size.width as int);
    let cw = texture_size.width as int;
    let ch = texture_size.height as int;
    &&& l.id == id
    &&& l.dimensions == dimensions
    &&& l.pixel_art == pixel_art
    &&& l.entity_count == 0
    &&& l.entity_maximum == 0
    &&& l.staged@.len() == 0
    &&& l.textures@.len() == n
    &&& l.atlas.cell_size == texture_size
    &&& l.atlas.count == n
    &&& l.atlas.width_count == wc
    &&& l.atlas.width == atlas::atlas_width(n, wc, cw)
    &&& l.atlas.height == atlas::atlas_height(n, wc, ch)
    &&& l.tex_coord_size.width.num == texture_size.width
    &&& l.tex_coord_size.width.den == l.atlas.width
    &&& l.tex_coord_size.height.num == texture_size.height
    &&& l.tex_coord_size.height.den == l.atlas.height
    &&& forall|i: int| 0 <= i < n ==> (#[trigger] l.textures@[i]).id@ == images[i].id@
    &&& forall|i: int| 0 <= i < n ==> (#[trigger] l.textures@[i]).path@ == images[i].path@
    &&& forall|i: int|
        0 <= i < n ==> (#[trigger] l.textures@[i]).width == texture_size.width && l.textures@[i].height
            == texture_size.height
    &&& forall|i: int|
        0 <= i < n ==> (#[trigger] l.textures@[i]).index == Some(
            [
                atlas::cell_column(i, wc) as u32,
                atlas::cell_row(i, wc) as u32,
            ],
        )
    &&& forall|i: int|
        0 <= i < n ==> (#[trigger] l.textures@[i]).offset == Some(
            [
                (atlas::cell_column(i, wc) * cw) as u32,
                (atlas::cell_row(i, wc) * ch) as u32,
            ],
        )
    &&& forall|i: int, dy: int, k: int|
        0 <= i < n && 0 <= dy < ch && 0 <= k < 4 * cw ==> #[trigger] atlas::atlas_byte_at(
            l.atlas.pixels@,
            i,
            dy,
            k,
            wc,
            cw,
            ch,
            l.atlas.width as int,
        ) == crate::image_data::conformed_pixels(images[i], texture_size)[4 * (cw * dy) + k]
}

/// In a freshly packed layer, looking up the id of the `i`-th input image
/// resolves to exactly the cell the packer assigned to position `i`: the
/// id-to-record association and the placement agree.
pub proof fn lemma_packed_lookup(
    l: Layer2D,
    id: LayerID,
    dimensions: Extent2D,
    images: Seq<CellImage>,
    texture_size: Extent2D,
    pixel_art: bool,
    i: int,
)
    requires
        l.wf(),
        packed_from(l, id, dimensions, images, texture_size, pixel_art),
        0 <= i < images.len(),
    ensures
        l.spec_texture_index(images[i].id@) == Some(
            [
                atlas::cell_column(
                    i,
                    atlas::cells_per_row(MAX_ATLAS_WIDTH as int, texture_size.width as int),
                ) as u32,
                atlas::cell_row(
                    i,
                    atlas::cells_per_row(MAX_ATLAS_WIDTH as int, texture_size.width as int),
                ) as u32,
            ],
        ),
{
    lemma_lookup_of_unique_id(l.textures@, i);
}

/// The operations that build a layer and reconcile its instances.
pub struct Layer2DSystem;

impl Layer2DSystem {
    /// Builds the entity records' bytes for `entities`, looking each
    /// entity's texture up in `textures`. Fails — touching nothing — as
    /// soon as an entity names a texture that is not there.
    fn stage_entities(textures: &Vec<Texture2D>, size: RatioSize, entities: &Vec<Entity2D>) -> (r:
        Result<Vec<u8>, EffectError>)
        ensures
            r is Ok <==> (forall|k: int|
                0 <= k < entities@.len() ==> spec_find_texture(
                    textures@,
                    (#[trigger] entities@[k]).texture@,
                ) is Some),
            r matches Ok(bytes) ==> bytes@ == staged_instance_bytes(textures@, size, entities@)
                && bytes@.len() == entities@.len() * INSTANCE_STRIDE,
    {
        let n = entities.len();
        let mut bytes: Vec<u8> = Vec::new();
        let mut k: usize = 0;
        while k < n
            invariant
                k <= n,
                n == entities@.len(),
                forall|t: int|
                    0 <= t < k ==> spec_find_texture(
                        textures@,
                        (#[trigger] entities@[t]).texture@,
                    ) is Some,
                bytes@ == staged_instance_bytes(textures@, size, entities@.take(k as int)),
                bytes@.len() == k * INSTANCE_STRIDE,
            decreases n - k,
        {
            let e = &entities[k];
            let ix: [u32; 2];
            let found = find_record(textures, &e.texture);
            match found {
                Some(t) => {
                    match t.index() {
                        Some(i2) => {
                            ix = i2;
                        },
                        None => {
                            ix = [0, 0];
                        },
                    }
                },
                None => {
                    return Err(EffectError::new("Texture is not in given layer"));
                },
            }
            proof {
                assert(ix == found_index(textures@, entities@[k as int].texture@));
                lemma_staged_bytes_push(
                    textures@,
                    size,
                    entities@.take(k as int),
                    entities@[k as int],
                );
                assert(entities@.take(k as int).push(entities@[k as int]) =~= entities@.take(
                    k as int + 1,
                ));
            }
            serialize_instance(&mut bytes, &e.transform, ix, size);
            k += 1;
        }
        proof {
            assert(entities@.take(n as int) =~= entities@);
        }
        Ok(bytes)
    }

    /// Packs `images` into a fresh layer: conforms each image to
    /// `texture_size`, packs the atlas under the hard maximum extent, and
    /// builds one placed record per image. Succeeds exactly when the ids
    /// are unique, every image's buffer matches its dimensions, and the
    /// grid can hold them all — and fails before anything is built
    /// otherwise. The result is draw-ready but owns no GPU state yet.
    pub fn packed(
        id: LayerID,
        dimensions: Extent2D,
        images: Vec<CellImage>,
        texture_size: Extent2D,
        pixel_art: bool,
    ) -> (r: Result<Layer2D, EffectError>)
        requires
            texture_size.width > 0,
            texture_size.height > 0,
        ensures
            r is Ok <==> ({
                &&& forall|i: int, j: int|
                    0 <= i < j < images@.len() ==> images@[i].id@ != images@[j].id@
                &&& forall|i: int| 0 <= i < images@.len() ==> (#[trigger] images@[i]).wf()
                &&& images@.len() <= atlas::grid_capacity(
                    MAX_ATLAS_WIDTH as int,
                    MAX_ATLAS_HEIGHT as int,
                    texture_size.width as int,
                    texture_size.height as int,
                )
            }),
            r matches Ok(l) ==> l.wf() && l.gpu is None && packed_from(
                l,
                id,
                dimensions,
                images@,
                texture_size,
                pixel_art,
            ),
    {
        let n = images.len();
        let mut j: usize = 0;
        while j < n
            invariant
                j <= n,
                n == images@.len(),
                forall|a: int, b: int| 0 <= a < j && a < b < n ==> images@[a].id@ != images@[b].id@,
            decreases n - j,
        {
            let mut k: usize = j + 1;
            while k < n
                invariant
                    j < k <= n,
                    n == images@.len(),
                    j < n,
                    forall|a: int, b: int|
                        0 <= a < j && a < b < n ==> images@[a].id@ != images@[b].id@,
                    forall|b: int| j < b < k ==> images@[j as int].id@ != images@[b].id@,
                decreases n - k,
            {
                if images[j].id.same(&images[k].id) {
                    return Err(EffectError::new("Texture id duplicated in layer"));
                }
                k += 1;
            }
            j += 1;
        }
        let conformed = match conform_images(images, texture_size) {
            Ok(c) => c,
            Err(e) => {
                return Err(e);
            },
        };
        proof {
            assert(4 * (MAX_ATLAS_WIDTH as int) * (MAX_ATLAS_HEIGHT as int) <= usize::MAX);
        }
        let layout = match atlas::pack(&conformed, texture_size, MAX_ATLAS_WIDTH, MAX_ATLAS_HEIGHT) {
            Ok(l) => l,
            Err(e) => {
                return Err(e);
            },
        };
        proof {
            atlas::lemma_atlas_dims_bounded(
                n as int,
                MAX_ATLAS_WIDTH as int,
                MAX_ATLAS_HEIGHT as int,
                texture_size.width as int,
                texture_size.height as int,
            );
            assert((layout.width_count as int) <= MAX_ATLAS_WIDTH as int) by {
                vstd::arithmetic::div_mod::lemma_div_nonincreasing(
                    MAX_ATLAS_WIDTH as int,
                    texture_size.width as int,
                );
            }
            let hc = atlas::rows_available(MAX_ATLAS_HEIGHT as int, texture_size.height as int);
            assert(hc <= MAX_ATLAS_HEIGHT as int) by {
                vstd::arithmetic::div_mod::lemma_div_nonincreasing(
                    MAX_ATLAS_HEIGHT as int,
                    texture_size.height as int,
                );
            }
            assert(layout.width_count as int >= 0 && hc >= 0) by {
                vstd::arithmetic::div_mod::lemma_div_pos_is_pos(
                    MAX_ATLAS_WIDTH as int,
                    texture_size.width as int,
                );
                vstd::arithmetic::div_mod::lemma_div_pos_is_pos(
                    MAX_ATLAS_HEIGHT as int,
                    texture_size.height as int,
                );
            }
            assert((layout.width_count as int) * hc <= (MAX_ATLAS_WIDTH as int) * (
            MAX_ATLAS_HEIGHT as int)) by (nonlinear_arith)
                requires
                    0 <= layout.width_count as int <= MAX_ATLAS_WIDTH as int,
                    0 <= hc <= MAX_ATLAS_HEIGHT as int,
            ;
            assert(n <= u32::MAX);
            if n > 0 {
                assert(layout.width_count as int > 0) by (nonlinear_arith)
                    requires
                        n as int <= (layout.width_count as int) * hc,
                        n > 0,
                        layout.width_count as int >= 0,
                        hc >= 0,
                ;
            }
        }
        let tex_coord_size = layout.tex_coord_size();
        let mut records: Vec<Texture2D> = Vec::new();
        let mut i: usize = 0;
        while i < n
            invariant
                i <= n,
                n == conformed@.len(),
                n == layout.count,
                n <= u32::MAX,
                i < n ==> layout.width_count > 0,
                texture_size.width > 0,
                texture_size.height > 0,
                atlas::packed_layout(
                    layout,
                    conformed@,
                    texture_size,
                    MAX_ATLAS_WIDTH as int,
                    MAX_ATLAS_HEIGHT as int,
                ),
                records@.len() == i,
                forall|t: int|
                    0 <= t < i ==> (#[trigger] records@[t]).id@ == conformed@[t].id@,
                forall|t: int|
                    0 <= t < i ==> (#[trigger] records@[t]).path@ == conformed@[t].path@,
                forall|t: int|
                    0 <= t < i ==> (#[trigger] records@[t]).width == texture_size.width
                        && records@[t].height == texture_size.height,
                forall|t: int|
                    0 <= t < i ==> (#[trigger] records@[t]).index == Some(
                        [
                            atlas::cell_column(t, layout.width_count as int) as u32,
                            atlas::cell_row(t, layout.width_count as int) as u32,
                        ],
                    ),
                forall|t: int|
                    0 <= t < i ==> (#[trigger] records@[t]).offset == Some(
                        [
                            (atlas::cell_column(t, layout.width_count as int)
                                * texture_size.width) as u32,
                            (atlas::cell_row(t, layout.width_count as int)
                                * texture_size.height) as u32,
                        ],
                    ),
            decreases n - i,
        {
            proof {
                atlas::lemma_uv_in_bounds(
                    layout,
                    conformed@,
                    texture_size,
                    MAX_ATLAS_WIDTH as int,
                    MAX_ATLAS_HEIGHT as int,
                    i as int,
                );
            }
            let ix = layout.cell_index(i);
            let ox = ix[0] * texture_size.width;
            let oy = ix[1] * texture_size.height;
            let img = &conformed[i];
            let record = Texture2D {
                id: img.id.duplicate(),
                path: img.path.clone(),
                width: texture_size.width,
                height: texture_size.height,
                index: Some(ix),
                offset: Some([ox, oy]),
            };
            records.push(record);
            i += 1;
        }
        Ok(
            Layer2D {
                id,
                dimensions,
                textures: records,
                atlas: layout,
                tex_coord_size,
                pixel_art,
                entity_count: 0,
                entity_maximum: 0,
                staged: Vec::new(),
                gpu: None,
            },
        )
    }

    /// Turns a packed layer resident: uploads the atlas, builds the bind
    /// group (none when the layer has no textures — a no-draw layer, not an
    /// error), and allocates the quad geometry and the instance buffer. The
    /// packed state is untouched.
    pub fn upload(
        layer: &mut Layer2D,
        vertex_data: Vec<u8>,
        device: &wgpu::Device,
        queue: &wgpu::Queue,
    )
        requires
            old(layer).wf(),
            old(layer).gpu is None,
            vertex_data@.len() + 3 <= usize::MAX,
        ensures
            final(layer).wf(),
            final(layer).gpu is Some,
            *final(layer) == (Layer2D { gpu: final(layer).gpu, ..*old(layer) }),
    {
        let bind_group: Option<wgpu::BindGroup>;
        if layer.atlas.width > 0 && layer.atlas.height > 0 {
            let texture = gpu::create_texture(device, layer.atlas.width, layer.atlas.height);
            gpu::write_texture(
                queue,
                &texture,
                &layer.atlas.pixels,
                layer.atlas.width,
                layer.atlas.height,
            );
            let view = gpu::create_texture_view(&texture);
            let sampler = gpu::create_sampler(device, layer.pixel_art);
            let bgl = gpu::create_bind_group_layout(device);
            bind_group = Some(gpu::create_bind_group(device, &bgl, &view, &sampler));
        } else {
            bind_group = None;
        }
        let vertex_buffer = BufferAllocator::default().usage(false).data(vertex_data).allocate(
            device,
        );
        let index_buffer = BufferAllocator::default().usage(true).data(
            make_quad_index_bytes(),
        ).allocate(device);
        let mut entity_buffer = BufferAllocator::default().usage(false).size(
            layer.entity_maximum * INSTANCE_STRIDE,
        ).allocate(device);
        entity_buffer.write(&layer.staged, device, queue);
        layer.gpu = Some(LayerResources { bind_group, vertex_buffer, index_buffer, entity_buffer });
    }

    /// Builds a layer and makes it resident in one step: `packed` followed
    /// by `upload`.
    pub fn new(
        id: LayerID,
        dimensions: Extent2D,
        images: Vec<CellImage>,
        texture_size: Extent2D,
        pixel_art: bool,
        vertex_data: Vec<u8>,
        device: &wgpu::Device,
        queue: &wgpu::Queue,
    ) -> (r: Result<Layer2D, EffectError>)
        requires
            texture_size.width > 0,
            texture_size.height > 0,
            vertex_data@.len() + 3 <= usize::MAX,
        ensures
            r is Ok <==> ({
                &&& forall|i: int, j: int|
                    0 <= i < j < images@.len() ==> images@[i].id@ != images@[j].id@
                &&& forall|i: int| 0 <= i < images@.len() ==> (#[trigger] images@[i]).wf()
                &&& images@.len() <= atlas::grid_capacity(
                    MAX_ATLAS_WIDTH as int,
                    MAX_ATLAS_HEIGHT as int,
                    texture_size.width as int,
                    texture_size.height as int,
                )
            }),
            r matches Ok(l) ==> l.wf() && l.gpu is Some && packed_from(
                l,
                id,
                dimensions,
                images@,
                texture_size,
                pixel_art,
            ),
    {
        let mut layer = match Self::packed(id, dimensions, images, texture_size, pixel_art) {
            Ok(l) => l,
            Err(e) => {
                return Err(e);
            },
        };
        Self::upload(&mut layer, vertex_data, device, queue);
        Ok(layer)
    }

    /// Reconciles a packed (not yet resident) layer's instances with
    /// `entities`: exactly `set_entities` with no GPU state to touch, so
    /// the instance bookkeeping — count, capacity, staged bytes — evolves
    /// the same way it will once the layer is resident. Fails with the
    /// layer fully untouched if any entity names an absent texture.
    pub fn reconcile(layer: &mut Layer2D, entities: &Vec<Entity2D>) -> (r: Result<
        (),
        EffectError,
    >)
        requires
            old(layer).wf(),
            old(layer).gpu is None,
            entities@.len() * (2 * INSTANCE_STRIDE) <= usize::MAX,
        ensures
            final(layer).wf(),
            final(layer).gpu is None,
            r is Ok <==> (forall|k: int|
                0 <= k < entities@.len() ==> old(layer).has_texture(
                    (#[trigger] entities@[k]).texture@,
                )),
            r is Err ==> *final(layer) == *old(layer),
            r is Ok ==> {
                &&& final(layer).entity_count == entities@.len()
                &&& final(layer).entity_maximum == (if entities@.len() > old(
                    layer,
                ).entity_maximum {
                    2 * entities@.len()
                } else {
                    old(layer).entity_maximum as nat
                })
                &&& final(layer).entity_maximum >= old(layer).entity_maximum
                &&& final(layer).staged@ == staged_instance_bytes(
                    old(layer).textures@,
                    old(layer).tex_coord_size,
                    entities@,
                )
                &&& final(layer).textures == old(layer).textures
                &&& final(layer).atlas == old(layer).atlas
                &&& final(layer).tex_coord_size == old(layer).tex_coord_size
                &&& final(layer).id == old(layer).id
            },
    {
        let bytes = match Self::stage_entities(&layer.textures, layer.tex_coord_size, entities) {
            Ok(b) => b,
            Err(e) => {
                return Err(e);
            },
        };
        let n = entities.len();
        proof {
            assert((n as int) * (2 * (INSTANCE_STRIDE as int)) == 2 * ((n as int) * (
            INSTANCE_STRIDE as int))) by (nonlinear_arith);
            assert((2 * (n as int)) * (INSTANCE_STRIDE as int) == 2 * ((n as int) * (
            INSTANCE_STRIDE as int))) by (nonlinear_arith);
            assert((n as int) <= (n as int) * (INSTANCE_STRIDE as int)) by (nonlinear_arith)
                requires
                    n as int >= 0,
                    INSTANCE_STRIDE as int >= 1,
            ;
        }
        let new_max: usize = if n > layer.entity_maximum {
            2 * n
        } else {
            layer.entity_maximum
        };
        layer.staged = bytes;
        layer.entity_count = n;
        layer.entity_maximum = new_max;
        Ok(())
    }

    /// Reconciles the layer's instances with `entities`: serializes one
    /// record per entity — looking every texture id up first, and failing
    /// with the layer fully untouched if any is absent — then stores the
    /// bytes and grows the GPU allocation to twice the count when, and only
    /// when, the count outgrew it. The draw range after success is exactly
    /// `[0, entities.len())`, and the allocation never shrinks.
    pub fn set_entities(
        layer: &mut Layer2D,
        entities: &Vec<Entity2D>,
        device: &wgpu::Device,
        queue: &wgpu::Queue,
    ) -> (r: Result<(), EffectError>)
        requires
            old(layer).wf(),
            entities@.len() * (2 * INSTANCE_STRIDE) <= usize::MAX,
        ensures
            final(layer).wf(),
            r is Ok <==> (forall|k: int|
                0 <= k < entities@.len() ==> old(layer).has_texture(
                    (#[trigger] entities@[k]).texture@,
                )),
            r is Err ==> *final(layer) == *old(layer),
            r is Ok ==> {
                &&& final(layer).entity_count == entities@.len()
                &&& final(layer).entity_maximum == (if entities@.len() > old(
                    layer,
                ).entity_maximum {
                    2 * entities@.len()
                } else {
                    old(layer).entity_maximum as nat
                })
                &&& final(layer).entity_maximum >= old(layer).entity_maximum
                &&& final(layer).staged@ == staged_instance_bytes(
                    old(layer).textures@,
                    old(layer).tex_coord_size,
                    entities@,
                )
                &&& final(layer).textures == old(layer).textures
                &&& final(layer).atlas == old(layer).atlas
                &&& final(layer).tex_coord_size == old(layer).tex_coord_size
                &&& final(layer).id == old(layer).id
                &&& (final(layer).gpu is Some) <==> (old(layer).gpu is Some)
            },
    {
        let bytes = match Self::stage_entities(&layer.textures, layer.tex_coord_size, entities) {
            Ok(b) => b,
            Err(e) => {
                return Err(e);
            },
        };
        let n = entities.len();
        proof {
            assert((n as int) * (2 * (INSTANCE_STRIDE as int)) == 2 * ((n as int) * (
            INSTANCE_STRIDE as int))) by (nonlinear_arith);
            assert((2 * (n as int)) * (INSTANCE_STRIDE as int) == 2 * ((n as int) * (
            INSTANCE_STRIDE as int))) by (nonlinear_arith);
            assert((n as int) <= (n as int) * (INSTANCE_STRIDE as int)) by (nonlinear_arith)
                requires
                    n as int >= 0,
                    INSTANCE_STRIDE as int >= 1,
            ;
        }
        let new_max: usize = if n > layer.entity_maximum {
            2 * n
        } else {
            layer.entity_maximum
        };
        layer.staged = bytes;
        layer.entity_count = n;
        layer.entity_maximum = new_max;
        let g = layer.gpu.take();
        match g {
            Some(mut res) => {
                res.entity_buffer.write(&layer.staged, device, queue);
                layer.gpu = Some(res);
            },
            None => {},
        }
        Ok(())
    }
}

/// Looks the record named `id` up in `ts`, scanning in order.
fn find_record<'a>(ts: &'a Vec<Texture2D>, id: &TextureID) -> (r: Option<&'a Texture2D>)
    ensures
        match r {
            Some(t) => spec_find_texture(ts@, id@) == Some(*t),
            None => spec_find_texture(ts@, id@) is None,
        },
{
    let n = ts.len();
    let mut j: usize = 0;
    while j < n
        invariant
            j <= n,
            n == ts@.len(),
            forall|k: int| 0 <= k < j ==> (#[trigger] ts@[k]).id@ != id@,
        decreases n - j,
    {
        if ts[j].id.same(id) {
            proof {
                lemma_find_texture_skip(ts@, id@, j as int);
                assert(ts@.skip(j as int)[0] == ts@[j as int]);
            }
            return Some(&ts[j]);
        }
        j += 1;
    }
    proof {
        lemma_find_texture_skip(ts@, id@, n as int);
        assert(ts@.skip(n as int).len() == 0);
    }
    None
}

} // verus!
