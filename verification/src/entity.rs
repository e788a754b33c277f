//! Entities and their GPU-visible instance records. Every instance is
//! serialized to a fixed 88-byte layout: sixteen transform words, the
//! `[column, row]` cell index of its texture, and the layer's normalized
//! cell extent as two exact ratios — little-endian words throughout, so the
//! byte image of a record is a function of its fields and nothing else.

use vstd::bytes::{spec_u32_to_le_bytes, u32_to_le_bytes};
use vstd::prelude::*;

use crate::error::EffectError;
use crate::extent::RatioSize;
use crate::id::{LayerID, TextureID};
use crate::layer::Layer2D;

verus! {

/// Bytes per serialized instance record: 22 little-endian 32-bit words.
pub const INSTANCE_STRIDE: usize = 88;

/// The little-endian byte image of a word sequence.
pub open spec fn words_le(ws: Seq<u32>) -> Seq<u8>
    decreases ws.len(),
{
    if ws.len() == 0 {
        Seq::empty()
    } else {
        spec_u32_to_le_bytes(ws[0]) + words_le(ws.drop_first())
    }
}

/// Serializing one more word appends its four bytes.
pub proof fn lemma_words_le_push(ws: Seq<u32>, w: u32)
    ensures
        words_le(ws.push(w)) == words_le(ws) + spec_u32_to_le_bytes(w),
    decreases ws.len(),
{
    if ws.len() == 0 {
        assert(ws.push(w).drop_first() =~= ws);
        assert(words_le(ws.push(w)) =~= words_le(ws) + spec_u32_to_le_bytes(w));
    } else {
        assert(ws.push(w).drop_first() =~= ws.drop_first().push(w));
        lemma_words_le_push(ws.drop_first(), w);
        assert(words_le(ws.push(w)) =~= words_le(ws) + spec_u32_to_le_bytes(w));
    }
}

/// A word sequence serializes to four bytes per word.
pub proof fn lemma_words_le_len(ws: Seq<u32>)
    ensures
        words_le(ws).len() == 4 * ws.len(),
    decreases ws.len(),
{
    if ws.len() > 0 {
        lemma_words_le_len(ws.drop_first());
        vstd::bytes::lemma_auto_spec_u32_to_from_le_bytes();
    } else {
        vstd::bytes::lemma_auto_spec_u32_to_from_le_bytes();
    }
}

/// The 22 words of one instance record: the transform, the cell index, and
/// the normalized cell extent as two num/den ratios.
pub open spec fn instance_words(transform: Seq<u32>, index: [u32; 2], size: RatioSize) -> Seq<u32> {
    transform + seq![
        index[0],
        index[1],
        size.width.num,
        size.width.den,
        size.height.num,
        size.height.den,
    ]
}

/// The byte image of one instance record.
pub open spec fn instance_bytes(transform: Seq<u32>, index: [u32; 2], size: RatioSize) -> Seq<u8> {
    words_le(instance_words(transform, index, size))
}

/// Appends a word's little-endian bytes to a byte vector.
fn push_word(out: &mut Vec<u8>, w: u32)
    ensures
        final(out)@ == old(out)@ + spec_u32_to_le_bytes(w),
{
    let mut bytes = u32_to_le_bytes(w);
    out.append(&mut bytes);
}

/// Serializes one instance record: `transform`, then the cell index, then
/// the normalized cell extent, all as little-endian words.
pub fn serialize_instance(out: &mut Vec<u8>, transform: &[u32; 16], index: [u32; 2], size: RatioSize)
    ensures
        final(out)@ == old(out)@ + instance_bytes(transform@, index, size),
        final(out)@.len() == old(out)@.len() + INSTANCE_STRIDE,
{
    let ghost mut words: Seq<u32> = Seq::empty();
    let ghost base = out@;
    let mut j: usize = 0;
    while j < 16
        invariant
            j <= 16,
            words == transform@.take(j as int),
            out@ == base + words_le(words),
        decreases 16 - j,
    {
        proof {
            lemma_words_le_push(words, transform@[j as int]);
            assert(transform@.take(j as int).push(transform@[j as int]) =~= transform@.take(
                j as int + 1,
            ));
        }
        push_word(out, transform[j]);
        proof {
            words = words.push(transform@[j as int]);
        }
        j += 1;
    }
    proof {
        assert(transform@.take(16) =~= transform@);
    }
    proof {
        lemma_words_le_push(words, index[0]);
        words = words.push(index[0]);
    }
    push_word(out, index[0]);
    proof {
        lemma_words_le_push(words, index[1]);
        words = words.push(index[1]);
    }
    push_word(out, index[1]);
    proof {
        lemma_words_le_push(words, size.width.num);
        words = words.push(size.width.num);
    }
    push_word(out, size.width.num);
    proof {
        lemma_words_le_push(words, size.width.den);
        words = words.push(size.width.den);
    }
    push_word(out, size.width.den);
    proof {
        lemma_words_le_push(words, size.height.num);
        words = words.push(size.height.num);
    }
    push_word(out, size.height.num);
    proof {
        lemma_words_le_push(words, size.height.den);
        words = words.push(size.height.den);
    }
    push_word(out, size.height.den);
    proof {
        assert(words =~= instance_words(transform@, index, size));
        lemma_words_le_len(words);
    }
}

/// One drawable entity: the layer it belongs to, the texture it is drawn
/// with, the cell that texture occupies in the layer's atlas, the layer's
/// normalized cell extent, and a transform of sixteen opaque words that the
/// renderer interprets.
#[derive(Debug)]
pub struct Entity2D {
    pub layer: LayerID,
    pub texture: TextureID,
    pub texture_index: [u32; 2],
    pub texture_size: RatioSize,
    pub transform: [u32; 16],
}

impl Entity2D {
    /// A new entity drawn with `texture`, which must be in `layer`; its cell
    /// index and the layer's cell extent are captured from the layer.
    pub fn new(transform: [u32; 16], layer: &Layer2D, texture: TextureID) -> (r: Result<
        Entity2D,
        EffectError,
    >)
        requires
            layer.wf(),
        ensures
            r is Ok <==> layer.has_texture(texture@),
            r matches Ok(e) ==> {
                &&& e.layer == layer.id
                &&& e.texture@ == texture@
                &&& Some(e.texture_index) == layer.spec_texture_index(texture@)
                &&& e.texture_size == layer.tex_coord_size
                &&& e.transform == transform
            },
    {
        let tex = match layer.get_texture(&texture) {
            Some(t) => t,
            None => {
                return Err(EffectError::new("Texture is not in given layer"));
            },
        };
        proof {
            crate::layer::lemma_find_texture_found(layer.textures@, texture@, *tex);
            let j = choose|j: int|
                0 <= j < layer.textures@.len() && layer.textures@[j] == *tex;
            assert(layer.textures@[j].index is Some);
        }
        let texture_index = match tex.index() {
            Some(ix) => ix,
            None => {
                return Err(EffectError::new("Texture is not in given layer"));
            },
        };
        Ok(
            Entity2D {
                layer: layer.id,
                texture,
                texture_index,
                texture_size: layer.tex_coord_size,
                transform,
            },
        )
    }

    /// This entity's serialized instance record.
    pub fn to_raw(&self) -> (r: Vec<u8>)
        ensures
            r@ == instance_bytes(self.transform@, self.texture_index, self.texture_size),
            r@.len() == INSTANCE_STRIDE,
    {
        let mut out: Vec<u8> = Vec::new();
        serialize_instance(&mut out, &self.transform, self.texture_index, self.texture_size);
        out
    }

    /// The layer this entity belongs to.
    pub fn layer_id(&self) -> (r: LayerID)
        ensures
            r == self.layer,
    {
        self.layer
    }
}

/// Operations that rebind an entity to a texture.
pub struct EntitySystem2D;

impl EntitySystem2D {
    /// Points `entity` at `texture`, which must be in `layer`; fails, and
    /// leaves the entity untouched, when the layer does not hold it.
    pub fn set_texture(entity: &mut Entity2D, texture: TextureID, layer: &Layer2D) -> (r: Result<
        (),
        EffectError,
    >)
        requires
            layer.wf(),
        ensures
            r is Ok <==> layer.has_texture(texture@),
            r is Err ==> *final(entity) == *old(entity),
            r is Ok ==> {
                &&& final(entity).layer == layer.id
                &&& final(entity).texture@ == texture@
                &&& Some(final(entity).texture_index) == layer.spec_texture_index(texture@)
                &&& final(entity).texture_size == layer.tex_coord_size
                &&& final(entity).transform == old(entity).transform
            },
    {
        let tex = match layer.get_texture(&texture) {
            Some(t) => t,
            None => {
                return Err(EffectError::new("Texture is not in given layer"));
            },
        };
        proof {
            crate::layer::lemma_find_texture_found(layer.textures@, texture@, *tex);
            let j = choose|j: int|
                0 <= j < layer.textures@.len() && layer.textures@[j] == *tex;
            assert(layer.textures@[j].index is Some);
        }
        let texture_index = match tex.index() {
            Some(ix) => ix,
            None => {
                return Err(EffectError::new("Texture is not in given layer"));
            },
        };
        entity.texture_index = texture_index;
        entity.texture_size = layer.tex_coord_size();
        entity.layer = layer.id;
        entity.texture = texture;
        Ok(())
    }
}

} // verus!
