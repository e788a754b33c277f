use effect_engine::allocator::{BufferAllocator, DEFAULT_BUFFER_SIZE};
use effect_engine::config::{EngineType, GraphicsAPI};
use effect_engine::error::EffectError;
use effect_engine::extent::{Extent2D, Ratio};
use effect_engine::id::{BackgroundID, BindGroupID, LayerID, TextureID};
use effect_engine::text::decimal_string;
use effect_engine::texture::{Texture2D, TextureDescriptor2D};
use effect_engine::vertex_group::VertexGroup2D;

#[test]
fn error_keeps_its_message() {
    let e = EffectError::new("Not enough space for textures in atlas");
    assert_eq!(e.message(), "Not enough space for textures in atlas");
    assert_eq!(e.msg, "Not enough space for textures in atlas");
}

#[test]
fn decimal_rendering() {
    assert_eq!(decimal_string(0), "0");
    assert_eq!(decimal_string(7), "7");
    assert_eq!(decimal_string(10), "10");
    assert_eq!(decimal_string(907), "907");
    assert_eq!(decimal_string(u64::MAX), "18446744073709551615");
}

#[test]
fn ids_compare_by_content() {
    let a = TextureID("grass".to_string());
    let b = TextureID("grass".to_string());
    let c = TextureID("stone".to_string());
    assert!(a.same(&b));
    assert!(!a.same(&c));
    assert_eq!(a.as_str(), "grass");
    assert_eq!(a.duplicate().as_str(), "grass");
    assert_eq!(LayerID(3), LayerID(3));
    assert_ne!(BindGroupID(1), BindGroupID(2));
    assert_eq!(BackgroundID("sky".to_string()).0, "sky");
}

#[test]
fn texture_record_lifecycle() {
    let mut t = Texture2D::new(TextureID("hero".to_string()), "hero.png".to_string());
    assert_eq!(t.file_path(), "hero.png");
    assert_eq!(t.id().as_str(), "hero");
    assert_eq!(t.index(), None);
    assert_eq!(t.offset(), None);
    assert_eq!((t.width(), t.height()), (0, 0));
    t.set_dimensions(32, 48);
    t.set_index(2, 1);
    t.set_offset(64, 48);
    assert_eq!((t.width(), t.height()), (32, 48));
    assert_eq!(t.index(), Some([2, 1]));
    assert_eq!(t.offset(), Some([64, 48]));
}

#[test]
fn descriptor_carries_its_fields() {
    let d = TextureDescriptor2D::new(
        TextureID("ui".to_string()),
        "ui.png".to_string(),
        true,
    );
    assert_eq!(d.id.as_str(), "ui");
    assert_eq!(d.path, "ui.png");
    assert!(d.pixel_art);
}

#[test]
fn buffer_allocator_builder() {
    let a = BufferAllocator::default();
    assert!(!a.index);
    assert_eq!(a.size, DEFAULT_BUFFER_SIZE);
    assert!(a.data.is_none());
    let b = BufferAllocator::default().usage(true).size(7);
    assert!(b.index);
    assert_eq!(b.size, 7);
    let c = BufferAllocator::default().data(vec![1, 2, 3]);
    assert_eq!(c.data, Some(vec![1, 2, 3]));
}

#[test]
fn quad_vertices_are_exact_ratios() {
    let g = VertexGroup2D::new(32, 32, 640, 480, Extent2D::new(64, 64), [32, 0]);
    let vs = g.vertices();
    assert_eq!(vs[0].position[0], Ratio { num: 320, den: 640 });
    assert_eq!(vs[0].position[1], Ratio { num: 320, den: 480 });
    assert_eq!(vs[0].tex_coords[0], Ratio { num: 64, den: 64 });
    assert_eq!(vs[0].tex_coords[1], Ratio { num: 0, den: 64 });
    assert_eq!(vs[1].position[0], Ratio { num: 0, den: 640 });
    assert_eq!(vs[1].tex_coords[0], Ratio { num: 32, den: 64 });
    assert_eq!(vs[2].tex_coords[1], Ratio { num: 32, den: 64 });
    assert_eq!(vs[3].tex_coords[0], Ratio { num: 64, den: 64 });
    assert_eq!(vs[3].tex_coords[1], Ratio { num: 32, den: 64 });
    // The UV rectangle, divided out, stays inside the unit square.
    for v in vs.iter() {
        let u = v.tex_coords[0].num as f64 / v.tex_coords[0].den as f64;
        let w = v.tex_coords[1].num as f64 / v.tex_coords[1].den as f64;
        assert!((0.0..=1.0).contains(&u));
        assert!((0.0..=1.0).contains(&w));
    }
}

#[test]
fn config_enums_are_plain_data() {
    let e = EngineType::D2;
    let g = GraphicsAPI::WGPU;
    assert_eq!(e, EngineType::D2);
    assert_eq!(g, GraphicsAPI::WGPU);
}

#[test]
fn extent_and_ratio_construction() {
    let e = Extent2D::new(800, 600);
    assert_eq!((e.width, e.height), (800, 600));
    let r = Ratio::new(3, 4);
    assert_eq!((r.num, r.den), (3, 4));
}
