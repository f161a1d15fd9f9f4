//! Scene construction and the output texture's resize bookkeeping.

use visualiser::operation::Operation;
use visualiser::renderer::object::{CircleParameters, ObjectParameters};
use visualiser::renderer::scene::{RenderList, SceneTexture};
use visualiser::renderer::{CreationError, Mapping, RenderParam, Size};

fn constant(value: f32) -> Operation {
    Operation::Const(value.to_bits())
}

fn circle() -> ObjectParameters {
    let mapping = Mapping::new((RenderParam::X, constant(0.0)))
        .add((RenderParam::Y, constant(0.0)))
        .add((RenderParam::Radius, constant(0.5)))
        .add((RenderParam::LineWidth, constant(0.1)))
        .add((RenderParam::R, constant(1.0)))
        .add((RenderParam::G, constant(1.0)))
        .add((RenderParam::B, constant(1.0)));
    ObjectParameters::Circle(CircleParameters::from_mapping(mapping).unwrap())
}

#[test]
fn a_scene_binds_its_background_colour_expressions() {
    // A pure red background: the frame is cleared to the evaluation of
    // exactly these three expressions before any object draws.
    let mapping = Mapping::new((RenderParam::R, constant(1.0)))
        .add((RenderParam::G, constant(0.0)))
        .add((RenderParam::B, constant(0.0)));
    let scene = RenderList::new(vec![circle()], mapping).unwrap();
    let (r, g, b) = scene.background();
    assert_eq!(*r, constant(1.0));
    assert_eq!(*g, constant(0.0));
    assert_eq!(*b, constant(0.0));
    assert_eq!(scene.objects().len(), 1);
}

#[test]
fn a_background_missing_a_channel_is_rejected() {
    let mapping = Mapping::new((RenderParam::R, constant(1.0)))
        .add((RenderParam::B, constant(0.0)));
    match RenderList::new(vec![], mapping) {
        Err(error) => assert_eq!(error, CreationError::MissingParameter(RenderParam::G)),
        Ok(_) => panic!("a background without G must be rejected"),
    }
}

#[test]
fn surplus_background_keys_are_tolerated() {
    let mapping = Mapping::new((RenderParam::R, constant(0.2)))
        .add((RenderParam::G, constant(0.4)))
        .add((RenderParam::B, constant(0.6)))
        .add((RenderParam::Width, constant(9.0)));
    assert!(RenderList::new(vec![], mapping).is_ok());
}

#[test]
fn resizing_to_the_same_size_twice_reallocates_once() {
    let mut texture = SceneTexture::new();
    let size = Size { width: 800, height: 600 };
    assert!(texture.update_size(size));
    assert!(!texture.update_size(size));
    assert!(!texture.update_size(size));
    let grown = Size { width: 1024, height: 768 };
    assert!(texture.update_size(grown));
    assert!(!texture.update_size(grown));
}

#[test]
fn a_view_is_created_once_per_allocation() {
    let mut texture = SceneTexture::new();
    texture.update_size(Size { width: 64, height: 64 });
    assert!(texture.ensure_view());
    assert!(!texture.ensure_view());
    // A reallocation invalidates the view; the next frame recreates it.
    texture.update_size(Size { width: 128, height: 64 });
    assert!(texture.ensure_view());
}

#[test]
fn a_bound_display_surface_counts_as_the_view() {
    let mut texture = SceneTexture::new();
    texture.set_display();
    assert!(!texture.ensure_view());
}

#[test]
fn a_scene_drives_its_own_texture() {
    let mapping = Mapping::new((RenderParam::R, constant(0.0)))
        .add((RenderParam::G, constant(0.0)))
        .add((RenderParam::B, constant(0.0)));
    let mut scene = RenderList::new(vec![], mapping).unwrap();
    let size = Size { width: 320, height: 200 };
    assert!(scene.texture_mut().update_size(size));
    assert!(!scene.texture_mut().update_size(size));
}
