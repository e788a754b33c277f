use effect_engine::atlas::CellImage;
use effect_engine::entity::{Entity2D, EntitySystem2D, INSTANCE_STRIDE};
use effect_engine::extent::Extent2D;
use effect_engine::id::{LayerID, TextureID};
use effect_engine::layer::{Layer2D, Layer2DSystem};

fn solid(id: &str, w: u32, h: u32, val: u8) -> CellImage {
    CellImage {
        id: TextureID(id.to_string()),
        path: format!("{}.png", id),
        pixels: vec![val; (4 * w * h) as usize],
        width: w,
        height: h,
    }
}

fn three_texture_layer() -> Layer2D {
    let images = vec![solid("a", 32, 32, 1), solid("b", 32, 32, 2), solid("c", 32, 32, 3)];
    Layer2DSystem::packed(LayerID(7), Extent2D::new(640, 480), images, Extent2D::new(32, 32), true)
        .unwrap()
}

#[test]
fn packed_layer_places_every_record() {
    let layer = three_texture_layer();
    assert_eq!(layer.layer_id(), LayerID(7));
    let b = layer.get_texture(&TextureID("b".to_string())).unwrap();
    assert_eq!(b.index, Some([1, 0]));
    assert_eq!(b.offset, Some([32, 0]));
    assert_eq!(b.width, 32);
    assert_eq!(b.height, 32);
    assert_eq!(b.file_path(), "b.png");
    let c = layer.get_texture(&TextureID("c".to_string())).unwrap();
    // Under the hard 8192-pixel maximum all three cells share one row.
    assert_eq!(c.index, Some([2, 0]));
    assert_eq!(c.offset, Some([64, 0]));
    assert!(layer.contains_texture(&TextureID("a".to_string())));
    assert!(!layer.contains_texture(&TextureID("ghost".to_string())));
    let dims = layer.atlas_dimensions();
    assert_eq!((dims.width, dims.height), (96, 32));
    let ts = layer.tex_coord_size();
    assert_eq!((ts.width.num, ts.width.den), (32, 96));
    assert_eq!((ts.height.num, ts.height.den), (32, 32));
}

#[test]
fn texture_ids_come_in_record_order() {
    let layer = three_texture_layer();
    let ids: Vec<&str> = layer.texture_ids().iter().map(|id| id.as_str()).collect();
    assert_eq!(ids, vec!["a", "b", "c"]);
}

#[test]
fn packed_layer_has_no_draw_handles_yet() {
    let layer = three_texture_layer();
    assert!(layer.draw_handles().is_none());
    assert!(layer.bind_group().is_none());
}

#[test]
fn duplicate_texture_ids_are_rejected() {
    let images = vec![solid("a", 8, 8, 1), solid("a", 8, 8, 2)];
    let err = Layer2DSystem::packed(
        LayerID(0),
        Extent2D::new(640, 480),
        images,
        Extent2D::new(8, 8),
        false,
    )
    .unwrap_err();
    assert_eq!(err.msg, "Texture id duplicated in layer");
}

#[test]
fn fresh_layer_draws_nothing() {
    let layer = three_texture_layer();
    assert_eq!(layer.entity_count(), 0);
    assert_eq!(layer.entity_maximum(), 0);
    assert_eq!(layer.instance_range(), (0, 0));
    assert_eq!(layer.index_count(), 0);
    assert!(layer.entity_bytes().is_empty());
}

fn entities_of(layer: &Layer2D, id: &str, n: usize) -> Vec<Entity2D> {
    (0..n)
        .map(|i| {
            let mut transform = [0u32; 16];
            transform[0] = i as u32;
            Entity2D::new(transform, layer, TextureID(id.to_string())).unwrap()
        })
        .collect()
}

#[test]
fn capacities_grow_by_doubling_and_never_shrink() {
    let mut layer = three_texture_layer();
    let e5 = entities_of(&layer, "a", 5);
    Layer2DSystem::reconcile(&mut layer, &e5).unwrap();
    assert_eq!(layer.entity_count(), 5);
    assert_eq!(layer.entity_maximum(), 10);
    let e3 = entities_of(&layer, "b", 3);
    Layer2DSystem::reconcile(&mut layer, &e3).unwrap();
    assert_eq!(layer.entity_count(), 3);
    assert_eq!(layer.entity_maximum(), 10);
    // Nine entities still fit the room for ten, so nothing is reallocated.
    let e9 = entities_of(&layer, "c", 9);
    Layer2DSystem::reconcile(&mut layer, &e9).unwrap();
    assert_eq!(layer.entity_count(), 9);
    assert_eq!(layer.entity_maximum(), 10);
    // Eleven do not fit: the allocation doubles past them and never shrinks.
    let e11 = entities_of(&layer, "a", 11);
    Layer2DSystem::reconcile(&mut layer, &e11).unwrap();
    assert_eq!(layer.entity_count(), 11);
    assert_eq!(layer.entity_maximum(), 22);
}

#[test]
fn draw_range_covers_exactly_the_live_instances() {
    let mut layer = three_texture_layer();
    let e5 = entities_of(&layer, "a", 5);
    Layer2DSystem::reconcile(&mut layer, &e5).unwrap();
    let e2 = entities_of(&layer, "a", 2);
    Layer2DSystem::reconcile(&mut layer, &e2).unwrap();
    // Capacity still holds 10 instances; the draw range covers only 2.
    assert_eq!(layer.entity_maximum(), 10);
    assert_eq!(layer.instance_range(), (0, 2));
    assert_eq!(layer.index_count(), 12);
    assert_eq!(layer.entity_bytes().len(), 2 * INSTANCE_STRIDE);
}

#[test]
fn unknown_texture_leaves_the_layer_untouched() {
    let mut layer = three_texture_layer();
    let e4 = entities_of(&layer, "a", 4);
    Layer2DSystem::reconcile(&mut layer, &e4).unwrap();
    let before_bytes = layer.entity_bytes().clone();
    let ghost_entity = Entity2D {
        layer: LayerID(7),
        texture: TextureID("ghost".to_string()),
        texture_index: [0, 0],
        texture_size: layer.tex_coord_size(),
        transform: [0u32; 16],
    };
    let mut entities = entities_of(&layer, "b", 2);
    entities.push(ghost_entity);
    let err = Layer2DSystem::reconcile(&mut layer, &entities).unwrap_err();
    assert_eq!(err.msg, "Texture is not in given layer");
    assert_eq!(layer.entity_count(), 4);
    assert_eq!(layer.entity_maximum(), 8);
    assert_eq!(layer.entity_bytes(), &before_bytes);
}

#[test]
fn staged_bytes_hold_one_record_per_entity() {
    let mut layer = three_texture_layer();
    let entities = entities_of(&layer, "b", 2);
    Layer2DSystem::reconcile(&mut layer, &entities).unwrap();
    let bytes = layer.entity_bytes();
    assert_eq!(bytes.len(), 2 * INSTANCE_STRIDE);
    // Each record: 16 transform words, the cell index, then the UV scale.
    for (k, e) in entities.iter().enumerate() {
        let rec = &bytes[k * INSTANCE_STRIDE..(k + 1) * INSTANCE_STRIDE];
        assert_eq!(rec[0..4], (k as u32).to_le_bytes());
        assert_eq!(rec[64..68], 1u32.to_le_bytes()); // column of "b"
        assert_eq!(rec[68..72], 0u32.to_le_bytes()); // row of "b"
        assert_eq!(rec[72..76], 32u32.to_le_bytes()); // uv width numerator
        assert_eq!(rec[76..80], 96u32.to_le_bytes()); // uv width denominator
        assert_eq!(rec[80..84], 32u32.to_le_bytes()); // uv height numerator
        assert_eq!(rec[84..88], 32u32.to_le_bytes()); // uv height denominator
        assert_eq!(rec, &e.to_raw()[..]);
    }
}

#[test]
fn entity_captures_its_texture_cell() {
    let layer = three_texture_layer();
    let e = Entity2D::new([5u32; 16], &layer, TextureID("c".to_string())).unwrap();
    assert_eq!(e.layer, LayerID(7));
    assert_eq!(e.texture_index, [2, 0]);
    assert_eq!((e.texture_size.width.num, e.texture_size.width.den), (32, 96));
    let raw = e.to_raw();
    assert_eq!(raw.len(), INSTANCE_STRIDE);
    assert_eq!(raw[0..4], 5u32.to_le_bytes());
    assert_eq!(raw[64..68], 2u32.to_le_bytes());
    assert_eq!(raw[68..72], 0u32.to_le_bytes());
}

#[test]
fn entity_with_unknown_texture_is_refused() {
    let layer = three_texture_layer();
    let err = Entity2D::new([0u32; 16], &layer, TextureID("nope".to_string())).unwrap_err();
    assert_eq!(err.msg, "Texture is not in given layer");
}

#[test]
fn set_texture_rebinds_or_leaves_untouched() {
    let layer = three_texture_layer();
    let mut e = Entity2D::new([0u32; 16], &layer, TextureID("a".to_string())).unwrap();
    assert_eq!(e.texture_index, [0, 0]);
    EntitySystem2D::set_texture(&mut e, TextureID("b".to_string()), &layer).unwrap();
    assert_eq!(e.texture_index, [1, 0]);
    assert_eq!(e.texture.as_str(), "b");
    let err = EntitySystem2D::set_texture(&mut e, TextureID("zzz".to_string()), &layer).unwrap_err();
    assert_eq!(err.msg, "Texture is not in given layer");
    assert_eq!(e.texture_index, [1, 0]);
    assert_eq!(e.texture.as_str(), "b");
}

#[test]
fn empty_layer_degenerates_to_no_draw() {
    let mut layer = Layer2DSystem::packed(
        LayerID(1),
        Extent2D::new(640, 480),
        Vec::new(),
        Extent2D::new(32, 32),
        false,
    )
    .unwrap();
    assert_eq!(layer.atlas_dimensions(), Extent2D::new(0, 0));
    assert_eq!(layer.entity_count(), 0);
    // Reconciling an empty entity list is legal and keeps the no-draw state.
    Layer2DSystem::reconcile(&mut layer, &Vec::new()).unwrap();
    assert_eq!(layer.instance_range(), (0, 0));
}
