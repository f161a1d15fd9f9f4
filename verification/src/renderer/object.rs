//! Renderable object types, their mandatory attribute sets, and the
//! all-or-nothing binding of a script's attributes to one object.

use vstd::prelude::*;
use crate::operation::Operation;
use crate::renderer::{eq_ignore_ascii_case, spec_eq_ignore_ascii_case, CreationError, Mapping, RenderParam};

verus! {

/// The closed set of visual primitive kinds.
#[derive(Clone, Copy, PartialEq, Eq, Structural, Hash, Debug)]
pub enum ObjectType {
    Circle,
    Quad,
}

/// The first attribute of `order` (scanning from index `i`) that `dom` does
/// not contain, if any.
pub open spec fn first_missing_from(dom: Set<RenderParam>, order: Seq<RenderParam>, i: int) -> Option<RenderParam>
    decreases order.len() - i,
{
    if i < 0 || i >= order.len() {
        None
    } else if !dom.contains(order[i]) {
        Some(order[i])
    } else {
        first_missing_from(dom, order, i + 1)
    }
}

/// The first attribute of `order` that `dom` does not contain, if any:
/// the missing parameter that a failed binding reports.
pub open spec fn first_missing(dom: Set<RenderParam>, order: Seq<RenderParam>) -> Option<RenderParam> {
    first_missing_from(dom, order, 0)
}

impl ObjectType {
    /// The spelling of this object type in script text.
    pub open spec fn spec_name(self) -> Seq<char> {
        match self {
            ObjectType::Circle => "Circle"@,
            ObjectType::Quad => "Quad"@,
        }
    }

    /// The object type named by `s`, matched up to ASCII case.
    pub open spec fn spec_parse(s: Seq<char>) -> Option<ObjectType> {
        if spec_eq_ignore_ascii_case(s, "Circle"@) {
            Some(ObjectType::Circle)
        } else if spec_eq_ignore_ascii_case(s, "Quad"@) {
            Some(ObjectType::Quad)
        } else {
            None
        }
    }

    /// This object type's spelling, as the script layer uses it.
    pub fn name(&self) -> (name: &'static str)
        ensures
            name@ == self.spec_name(),
    {
        match self {
            ObjectType::Circle => "Circle",
            ObjectType::Quad => "Quad",
        }
    }

    /// Parses an object-type name from script text, ASCII-case-insensitively.
    pub fn parse(s: &str) -> (result: Option<ObjectType>)
        ensures
            result == ObjectType::spec_parse(s@),
    {
        if eq_ignore_ascii_case(s, "Circle") {
            Some(ObjectType::Circle)
        } else if eq_ignore_ascii_case(s, "Quad") {
            Some(ObjectType::Quad)
        } else {
            None
        }
    }

    /// The mandatory attributes of this object type, in the order the type
    /// declares (and extracts, and so reports a miss in).
    pub open spec fn mandatory_params(self) -> Seq<RenderParam> {
        match self {
            ObjectType::Circle => seq![
                RenderParam::X,
                RenderParam::Y,
                RenderParam::Radius,
                RenderParam::LineWidth,
                RenderParam::R,
                RenderParam::G,
                RenderParam::B,
            ],
            ObjectType::Quad => seq![
                RenderParam::X,
                RenderParam::Y,
                RenderParam::Width,
                RenderParam::Height,
                RenderParam::R,
                RenderParam::G,
                RenderParam::B,
            ],
        }
    }

    /// The mandatory attributes of this object type, as a set: exactly the
    /// keys a script must bind for an object of this type, no more, no less.
    pub open spec fn mandatory_set(self) -> Set<RenderParam> {
        match self {
            ObjectType::Circle => set![
                RenderParam::X,
                RenderParam::Y,
                RenderParam::Radius,
                RenderParam::LineWidth,
                RenderParam::R,
                RenderParam::G,
                RenderParam::B,
            ],
            ObjectType::Quad => set![
                RenderParam::X,
                RenderParam::Y,
                RenderParam::Width,
                RenderParam::Height,
                RenderParam::R,
                RenderParam::G,
                RenderParam::B,
            ],
        }
    }
}

/// The resolved attribute expressions of one circle, immutable after
/// construction. Each frame the embedding evaluates them and packs the
/// uniform as: aspect ratio, then the values in the order of
/// [`CircleParameters::uniform_operations`].
#[derive(Debug, PartialEq)]
pub struct CircleParameters {
    pub x: Operation,
    pub y: Operation,
    pub radius: Operation,
    pub line_width: Operation,
    pub r: Operation,
    pub g: Operation,
    pub b: Operation,
}

/// The resolved attribute expressions of one quad, immutable after
/// construction. Each frame the embedding evaluates them and packs the
/// uniform in the order of [`QuadParameters::uniform_operations`].
#[derive(Debug, PartialEq)]
pub struct QuadParameters {
    pub x: Operation,
    pub y: Operation,
    pub width: Operation,
    pub height: Operation,
    pub r: Operation,
    pub g: Operation,
    pub b: Operation,
}

impl CircleParameters {
    /// The circle whose fields are `m`'s bindings of the mandatory keys.
    pub open spec fn spec_from_map(m: Map<RenderParam, Operation>) -> CircleParameters {
        CircleParameters {
            x: m[RenderParam::X],
            y: m[RenderParam::Y],
            radius: m[RenderParam::Radius],
            line_width: m[RenderParam::LineWidth],
            r: m[RenderParam::R],
            g: m[RenderParam::G],
            b: m[RenderParam::B],
        }
    }

    /// Binds a script's attributes to a circle: every mandatory attribute is
    /// extracted, in declared order, and a leftover key fails the whole
    /// construction. Succeeds exactly when the script bound exactly the
    /// mandatory attribute set.
    pub fn from_mapping(mapping: Mapping) -> (result: Result<CircleParameters, CreationError>)
        ensures
            result is Ok <==> mapping@.dom() =~= ObjectType::Circle.mandatory_set(),
            result matches Ok(circle) ==> circle == CircleParameters::spec_from_map(mapping@),
            first_missing(mapping@.dom(), ObjectType::Circle.mandatory_params()) matches Some(missing)
                ==> result == Err::<CircleParameters, CreationError>(CreationError::MissingParameter(missing)),
            result matches Err(CreationError::ExtraParameter(extra)) ==> {
                &&& mapping@.dom().contains(extra)
                &&& !ObjectType::Circle.mandatory_set().contains(extra)
            },
    {
        proof {
            reveal_with_fuel(first_missing_from, 9);
        }
        let ghost bound = mapping@;
        let mut mapping = mapping;
        let x = match mapping.get(RenderParam::X) {
            Ok(operation) => operation,
            Err(error) => return Err(error),
        };
        let y = match mapping.get(RenderParam::Y) {
            Ok(operation) => operation,
            Err(error) => return Err(error),
        };
        let radius = match mapping.get(RenderParam::Radius) {
            Ok(operation) => operation,
            Err(error) => return Err(error),
        };
        let line_width = match mapping.get(RenderParam::LineWidth) {
            Ok(operation) => operation,
            Err(error) => return Err(error),
        };
        let r = match mapping.get(RenderParam::R) {
            Ok(operation) => operation,
            Err(error) => return Err(error),
        };
        let g = match mapping.get(RenderParam::G) {
            Ok(operation) => operation,
            Err(error) => return Err(error),
        };
        let b = match mapping.get(RenderParam::B) {
            Ok(operation) => operation,
            Err(error) => return Err(error),
        };
        if let Err(error) = mapping.check_extra_parameters() {
            return Err(error);
        }
        proof {
            assert(bound.dom() =~= ObjectType::Circle.mandatory_set());
        }
        Ok(CircleParameters { x, y, radius, line_width, r, g, b })
    }

    /// The owned expressions in the fixed uniform layout: x, y, radius, line
    /// width, red, green, blue. The aspect ratio is packed in front of them.
    pub fn uniform_operations(&self) -> (operations: Vec<&Operation>)
        ensures
            operations@ == seq![&self.x, &self.y, &self.radius, &self.line_width, &self.r, &self.g, &self.b],
    {
        let mut operations: Vec<&Operation> = Vec::new();
        operations.push(&self.x);
        operations.push(&self.y);
        operations.push(&self.radius);
        operations.push(&self.line_width);
        operations.push(&self.r);
        operations.push(&self.g);
        operations.push(&self.b);
        operations
    }
}

impl QuadParameters {
    /// The quad whose fields are `m`'s bindings of the mandatory keys.
    pub open spec fn spec_from_map(m: Map<RenderParam, Operation>) -> QuadParameters {
        QuadParameters {
            x: m[RenderParam::X],
            y: m[RenderParam::Y],
            width: m[RenderParam::Width],
            height: m[RenderParam::Height],
            r: m[RenderParam::R],
            g: m[RenderParam::G],
            b: m[RenderParam::B],
        }
    }

    /// Binds a script's attributes to a quad: every mandatory attribute is
    /// extracted, in declared order, and a leftover key fails the whole
    /// construction. Succeeds exactly when the script bound exactly the
    /// mandatory attribute set.
    pub fn from_mapping(mapping: Mapping) -> (result: Result<QuadParameters, CreationError>)
        ensures
            result is Ok <==> mapping@.dom() =~= ObjectType::Quad.mandatory_set(),
            result matches Ok(quad) ==> quad == QuadParameters::spec_from_map(mapping@),
            first_missing(mapping@.dom(), ObjectType::Quad.mandatory_params()) matches Some(missing)
                ==> result == Err::<QuadParameters, CreationError>(CreationError::MissingParameter(missing)),
            result matches Err(CreationError::ExtraParameter(extra)) ==> {
                &&& mapping@.dom().contains(extra)
                &&& !ObjectType::Quad.mandatory_set().contains(extra)
            },
    {
        proof {
            reveal_with_fuel(first_missing_from, 9);
        }
        let ghost bound = mapping@;
        let mut mapping = mapping;
        let x = match mapping.get(RenderParam::X) {
            Ok(operation) => operation,
            Err(error) => return Err(error),
        };
        let y = match mapping.get(RenderParam::Y) {
            Ok(operation) => operation,
            Err(error) => return Err(error),
        };
        let width = match mapping.get(RenderParam::Width) {
            Ok(operation) => operation,
            Err(error) => return Err(error),
        };
        let height = match mapping.get(RenderParam::Height) {
            Ok(operation) => operation,
            Err(error) => return Err(error),
        };
        let r = match mapping.get(RenderParam::R) {
            Ok(operation) => operation,
            Err(error) => return Err(error),
        };
        let g = match mapping.get(RenderParam::G) {
            Ok(operation) => operation,
            Err(error) => return Err(error),
        };
        let b = match mapping.get(RenderParam::B) {
            Ok(operation) => operation,
            Err(error) => return Err(error),
        };
        if let Err(error) = mapping.check_extra_parameters() {
            return Err(error);
        }
        proof {
            assert(bound.dom() =~= ObjectType::Quad.mandatory_set());
        }
        Ok(QuadParameters { x, y, width, height, r, g, b })
    }

    /// The owned expressions in the fixed uniform layout: x, y, width,
    /// height, red, green, blue.
    pub fn uniform_operations(&self) -> (operations: Vec<&Operation>)
        ensures
            operations@ == seq![&self.x, &self.y, &self.width, &self.height, &self.r, &self.g, &self.b],
    {
        let mut operations: Vec<&Operation> = Vec::new();
        operations.push(&self.x);
        operations.push(&self.y);
        operations.push(&self.width);
        operations.push(&self.height);
        operations.push(&self.r);
        operations.push(&self.g);
        operations.push(&self.b);
        operations
    }
}

/// One renderable object's resolved attribute expressions, dispatched over
/// the closed set of object types.
#[derive(Debug, PartialEq)]
pub enum ObjectParameters {
    Circle(CircleParameters),
    Quad(QuadParameters),
}

/// The object that binding `m` for an object of type `object_type` yields.
pub open spec fn spec_create_object(object_type: ObjectType, m: Map<RenderParam, Operation>) -> ObjectParameters {
    match object_type {
        ObjectType::Circle => ObjectParameters::Circle(CircleParameters::spec_from_map(m)),
        ObjectType::Quad => ObjectParameters::Quad(QuadParameters::spec_from_map(m)),
    }
}

/// Builds one renderable object of the given type from a script's attribute
/// bindings. Construction is all-or-nothing: it succeeds exactly when the
/// bindings cover the type's mandatory attribute set and nothing else,
/// reports the first missing attribute in the type's declared order, and
/// otherwise reports some surplus key.
pub fn create_object(object_type: ObjectType, params: Mapping) -> (result: Result<ObjectParameters, CreationError>)
    ensures
        result is Ok <==> params@.dom() =~= object_type.mandatory_set(),
        result matches Ok(object) ==> object == spec_create_object(object_type, params@),
        first_missing(params@.dom(), object_type.mandatory_params()) matches Some(missing)
            ==> result == Err::<ObjectParameters, CreationError>(CreationError::MissingParameter(missing)),
        result matches Err(CreationError::ExtraParameter(extra)) ==> {
            &&& params@.dom().contains(extra)
            &&& !object_type.mandatory_set().contains(extra)
        },
{
    match object_type {
        ObjectType::Circle => match CircleParameters::from_mapping(params) {
            Ok(circle) => Ok(ObjectParameters::Circle(circle)),
            Err(error) => Err(error),
        },
        ObjectType::Quad => match QuadParameters::from_mapping(params) {
            Ok(quad) => Ok(ObjectParameters::Quad(quad)),
            Err(error) => Err(error),
        },
    }
}

/// The renderer's pipeline cache: one opaque pipeline handle per object
/// type, filled eagerly when the renderer starts.
///
/// The object-type set is closed and small, so an explicit slot per type
/// replaces a lazily filled shared cell: every lookup is total and no
/// runtime mutability is needed.
pub struct PipelineCache<T> {
    circle: T,
    quad: T,
}

impl<T> PipelineCache<T> {
    /// The cached pipeline handle for an object type.
    pub closed spec fn spec_pipeline(&self, object_type: ObjectType) -> T {
        match object_type {
            ObjectType::Circle => self.circle,
            ObjectType::Quad => self.quad,
        }
    }

    pub fn new(circle: T, quad: T) -> (cache: PipelineCache<T>)
        ensures
            cache.spec_pipeline(ObjectType::Circle) == circle,
            cache.spec_pipeline(ObjectType::Quad) == quad,
    {
        PipelineCache { circle, quad }
    }

    /// The pipeline to draw an object of the given type with.
    pub fn get(&self, object_type: ObjectType) -> (pipeline: &T)
        ensures
            *pipeline == self.spec_pipeline(object_type),
    {
        match object_type {
            ObjectType::Circle => &self.circle,
            ObjectType::Quad => &self.quad,
        }
    }
}

} // verus!
