//! Object construction: exact attribute sets succeed, anything else fails
//! with the right error.

use visualiser::operation::Operation;
use visualiser::renderer::object::{
    create_object, CircleParameters, ObjectParameters, ObjectType, QuadParameters,
};
use visualiser::renderer::{CreationError, Mapping, RenderParam};

fn constant(value: f32) -> Operation {
    Operation::Const(value.to_bits())
}

fn circle_mapping() -> Mapping {
    Mapping::new((RenderParam::X, constant(0.1)))
        .add((RenderParam::Y, constant(0.2)))
        .add((RenderParam::Radius, constant(0.3)))
        .add((RenderParam::LineWidth, constant(0.04)))
        .add((RenderParam::R, constant(1.0)))
        .add((RenderParam::G, constant(0.5)))
        .add((RenderParam::B, constant(0.0)))
}

fn quad_mapping() -> Mapping {
    Mapping::new((RenderParam::X, constant(0.1)))
        .add((RenderParam::Y, constant(0.2)))
        .add((RenderParam::Width, constant(0.6)))
        .add((RenderParam::Height, constant(0.7)))
        .add((RenderParam::R, constant(0.0)))
        .add((RenderParam::G, constant(1.0)))
        .add((RenderParam::B, constant(0.25)))
}

#[test]
fn circle_with_exactly_the_mandatory_set_is_constructed() {
    let circle = CircleParameters::from_mapping(circle_mapping()).unwrap();
    assert_eq!(circle.x, constant(0.1));
    assert_eq!(circle.y, constant(0.2));
    assert_eq!(circle.radius, constant(0.3));
    assert_eq!(circle.line_width, constant(0.04));
    assert_eq!(circle.r, constant(1.0));
    assert_eq!(circle.g, constant(0.5));
    assert_eq!(circle.b, constant(0.0));
}

#[test]
fn quad_with_exactly_the_mandatory_set_is_constructed() {
    let quad = QuadParameters::from_mapping(quad_mapping()).unwrap();
    assert_eq!(quad.x, constant(0.1));
    assert_eq!(quad.y, constant(0.2));
    assert_eq!(quad.width, constant(0.6));
    assert_eq!(quad.height, constant(0.7));
    assert_eq!(quad.r, constant(0.0));
    assert_eq!(quad.g, constant(1.0));
    assert_eq!(quad.b, constant(0.25));
}

#[test]
fn a_missing_attribute_fails_with_missing_parameter() {
    let mapping = Mapping::new((RenderParam::X, constant(0.1)))
        .add((RenderParam::Y, constant(0.2)))
        .add((RenderParam::LineWidth, constant(0.04)))
        .add((RenderParam::R, constant(1.0)))
        .add((RenderParam::G, constant(0.5)))
        .add((RenderParam::B, constant(0.0)));
    assert_eq!(
        CircleParameters::from_mapping(mapping),
        Err(CreationError::MissingParameter(RenderParam::Radius))
    );
}

#[test]
fn the_first_missing_attribute_in_declared_order_is_reported() {
    // Both X and Radius are absent; the circle's order reports X first.
    let mapping = Mapping::new((RenderParam::Y, constant(0.2)))
        .add((RenderParam::LineWidth, constant(0.04)))
        .add((RenderParam::R, constant(1.0)))
        .add((RenderParam::G, constant(0.5)))
        .add((RenderParam::B, constant(0.0)));
    assert_eq!(
        CircleParameters::from_mapping(mapping),
        Err(CreationError::MissingParameter(RenderParam::X))
    );
}

#[test]
fn one_extra_attribute_fails_with_extra_parameter() {
    let mapping = circle_mapping().add((RenderParam::Width, constant(9.0)));
    assert_eq!(
        CircleParameters::from_mapping(mapping),
        Err(CreationError::ExtraParameter(RenderParam::Width))
    );
}

#[test]
fn a_quad_rejects_a_circle_only_attribute() {
    let mapping = quad_mapping().add((RenderParam::Radius, constant(0.5)));
    assert_eq!(
        QuadParameters::from_mapping(mapping),
        Err(CreationError::ExtraParameter(RenderParam::Radius))
    );
}

#[test]
fn create_object_dispatches_on_the_object_type() {
    match create_object(ObjectType::Circle, circle_mapping()) {
        Ok(ObjectParameters::Circle(circle)) => assert_eq!(circle.radius, constant(0.3)),
        other => panic!("expected a circle, got {:?}", other),
    }
    match create_object(ObjectType::Quad, quad_mapping()) {
        Ok(ObjectParameters::Quad(quad)) => assert_eq!(quad.height, constant(0.7)),
        other => panic!("expected a quad, got {:?}", other),
    }
}

#[test]
fn create_object_rejects_a_mapping_for_the_other_type() {
    assert_eq!(
        create_object(ObjectType::Quad, circle_mapping()),
        Err(CreationError::MissingParameter(RenderParam::Width))
    );
}

#[test]
fn circle_uniform_operations_come_in_layout_order() {
    let circle = CircleParameters::from_mapping(circle_mapping()).unwrap();
    let operations = circle.uniform_operations();
    let expected = [
        constant(0.1),
        constant(0.2),
        constant(0.3),
        constant(0.04),
        constant(1.0),
        constant(0.5),
        constant(0.0),
    ];
    assert_eq!(operations.len(), expected.len());
    for (op, want) in operations.iter().zip(expected.iter()) {
        assert_eq!(*op, want);
    }
}

#[test]
fn quad_uniform_operations_come_in_layout_order() {
    let quad = QuadParameters::from_mapping(quad_mapping()).unwrap();
    let operations = quad.uniform_operations();
    let expected = [
        constant(0.1),
        constant(0.2),
        constant(0.6),
        constant(0.7),
        constant(0.0),
        constant(1.0),
        constant(0.25),
    ];
    assert_eq!(operations.len(), expected.len());
    for (op, want) in operations.iter().zip(expected.iter()) {
        assert_eq!(*op, want);
    }
}

#[test]
fn object_type_parse_is_case_insensitive() {
    assert_eq!(ObjectType::parse("circle"), Some(ObjectType::Circle));
    assert_eq!(ObjectType::parse("CIRCLE"), Some(ObjectType::Circle));
    assert_eq!(ObjectType::parse("Quad"), Some(ObjectType::Quad));
    assert_eq!(ObjectType::parse("qUAD"), Some(ObjectType::Quad));
    assert_eq!(ObjectType::parse("triangle"), None);
    assert_eq!(ObjectType::Circle.name(), "Circle");
    assert_eq!(ObjectType::Quad.name(), "Quad");
}
