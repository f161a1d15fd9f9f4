//! Renderable attributes: the attribute-name vocabulary, the key/value
//! collection a script binds for one object, and the errors its validation
//! raises.

pub mod object;
pub mod scene;

use vstd::prelude::*;
use crate::operation::Operation;

verus! {

/// A render-target size in pixels.
#[derive(Clone, Copy, PartialEq, Eq, Structural, Debug)]
pub struct Size {
    pub width: u32,
    pub height: u32,
}

/// The closed set of attribute keys an object may accept.
#[derive(Clone, Copy, PartialEq, Eq, Structural, Hash, Debug)]
pub enum RenderParam {
    X,
    Y,
    R,
    G,
    B,
    Radius,
    LineWidth,
    Width,
    Height,
}

/// The code point of `c` with an ASCII uppercase letter folded to its
/// lowercase counterpart; every other character is left as it is.
pub open spec fn spec_fold_case(c: char) -> u32 {
    if 65 <= c as u32 && c as u32 <= 90 {
        (c as u32 + 32) as u32
    } else {
        c as u32
    }
}

/// Character sequences equal up to ASCII case.
pub open spec fn spec_eq_ignore_ascii_case(a: Seq<char>, b: Seq<char>) -> bool {
    a.len() == b.len() && forall|k: int| 0 <= k < a.len() ==> spec_fold_case(a[k]) == spec_fold_case(b[k])
}

/// Compares two strings for equality up to ASCII case.
pub(crate) fn eq_ignore_ascii_case(a: &str, b: &str) -> (equal: bool)
    ensures
        equal == spec_eq_ignore_ascii_case(a@, b@),
{
    let a_len = a.unicode_len();
    let b_len = b.unicode_len();
    if a_len != b_len {
        return false;
    }
    let mut k: usize = 0;
    while k < a_len
        invariant
            k <= a_len,
            a_len == a@.len(),
            a_len == b@.len(),
            forall|m: int| 0 <= m < k ==> spec_fold_case(a@[m]) == spec_fold_case(b@[m]),
        decreases a_len - k,
    {
        let ca = a.get_char(k) as u32;
        let cb = b.get_char(k) as u32;
        let fa = if ca >= 65 && ca <= 90 {
            ca + 32
        } else {
            ca
        };
        let fb = if cb >= 65 && cb <= 90 {
            cb + 32
        } else {
            cb
        };
        if fa != fb {
            return false;
        }
        k = k + 1;
    }
    true
}

/// Compares two strings for exact equality, character by character.
fn eq_exact(a: &str, b: &str) -> (equal: bool)
    ensures
        equal == (a@ == b@),
{
    let a_len = a.unicode_len();
    let b_len = b.unicode_len();
    if a_len != b_len {
        return false;
    }
    let mut k: usize = 0;
    while k < a_len
        invariant
            k <= a_len,
            a_len == a@.len(),
            a_len == b@.len(),
            forall|m: int| 0 <= m < k ==> a@[m] == b@[m],
        decreases a_len - k,
    {
        if a.get_char(k) != b.get_char(k) {
            return false;
        }
        k = k + 1;
    }
    proof {
        assert(a@ =~= b@);
    }
    true
}

impl RenderParam {
    /// The spelling of this attribute in script text and in diagnostics.
    pub open spec fn spec_name(self) -> Seq<char> {
        match self {
            RenderParam::X => "X"@,
            RenderParam::Y => "Y"@,
            RenderParam::R => "R"@,
            RenderParam::G => "G"@,
            RenderParam::B => "B"@,
            RenderParam::Radius => "Radius"@,
            RenderParam::LineWidth => "line_width"@,
            RenderParam::Width => "Width"@,
            RenderParam::Height => "Height"@,
        }
    }

    /// The attribute named by `s`: matched up to ASCII case, except
    /// `line_width`, whose fixed spelling must appear literally.
    pub open spec fn spec_parse(s: Seq<char>) -> Option<RenderParam> {
        if spec_eq_ignore_ascii_case(s, "X"@) {
            Some(RenderParam::X)
        } else if spec_eq_ignore_ascii_case(s, "Y"@) {
            Some(RenderParam::Y)
        } else if spec_eq_ignore_ascii_case(s, "R"@) {
            Some(RenderParam::R)
        } else if spec_eq_ignore_ascii_case(s, "G"@) {
            Some(RenderParam::G)
        } else if spec_eq_ignore_ascii_case(s, "B"@) {
            Some(RenderParam::B)
        } else if spec_eq_ignore_ascii_case(s, "Radius"@) {
            Some(RenderParam::Radius)
        } else if s == "line_width"@ {
            Some(RenderParam::LineWidth)
        } else if spec_eq_ignore_ascii_case(s, "Width"@) {
            Some(RenderParam::Width)
        } else if spec_eq_ignore_ascii_case(s, "Height"@) {
            Some(RenderParam::Height)
        } else {
            None
        }
    }

    /// This attribute's spelling, as the script layer and diagnostics use it.
    pub fn name(&self) -> (name: &'static str)
        ensures
            name@ == self.spec_name(),
    {
        match self {
            RenderParam::X => "X",
            RenderParam::Y => "Y",
            RenderParam::R => "R",
            RenderParam::G => "G",
            RenderParam::B => "B",
            RenderParam::Radius => "Radius",
            RenderParam::LineWidth => "line_width",
            RenderParam::Width => "Width",
            RenderParam::Height => "Height",
        }
    }

    /// Parses an attribute name from script text: ASCII-case-insensitively,
    /// except `line_width`, which uses its fixed literal spelling.
    pub fn parse(s: &str) -> (result: Option<RenderParam>)
        ensures
            result == RenderParam::spec_parse(s@),
    {
        if eq_ignore_ascii_case(s, "X") {
            Some(RenderParam::X)
        } else if eq_ignore_ascii_case(s, "Y") {
            Some(RenderParam::Y)
        } else if eq_ignore_ascii_case(s, "R") {
            Some(RenderParam::R)
        } else if eq_ignore_ascii_case(s, "G") {
            Some(RenderParam::G)
        } else if eq_ignore_ascii_case(s, "B") {
            Some(RenderParam::B)
        } else if eq_ignore_ascii_case(s, "Radius") {
            Some(RenderParam::Radius)
        } else if eq_exact(s, "line_width") {
            Some(RenderParam::LineWidth)
        } else if eq_ignore_ascii_case(s, "Width") {
            Some(RenderParam::Width)
        } else if eq_ignore_ascii_case(s, "Height") {
            Some(RenderParam::Height)
        } else {
            None
        }
    }
}

/// An error raised while binding a script's attributes to an object:
/// a mandatory attribute was absent, or a key was left over once every
/// mandatory attribute had been extracted.
#[derive(Clone, Copy, PartialEq, Eq, Structural, Debug)]
pub enum CreationError {
    MissingParameter(RenderParam),
    ExtraParameter(RenderParam),
}

impl CreationError {
    /// The human-readable diagnostic for this error.
    pub open spec fn spec_describe(self) -> Seq<char> {
        match self {
            CreationError::MissingParameter(param) => "missing required parameter "@ + param.spec_name(),
            CreationError::ExtraParameter(param) => "invalid parameter "@ + param.spec_name(),
        }
    }

    /// Renders this error as a human-readable diagnostic that names the
    /// offending attribute.
    pub fn describe(&self) -> (text: String)
        ensures
            text@ == self.spec_describe(),
    {
        match self {
            CreationError::MissingParameter(param) => {
                let mut text = String::from_str("missing required parameter ");
                text.append(param.name());
                text
            },
            CreationError::ExtraParameter(param) => {
                let mut text = String::from_str("invalid parameter ");
                text.append(param.name());
                text
            },
        }
    }
}

/// The attributes a script declared for one object: a write-once collection
/// from attribute name to [`Operation`], consumed during that object's
/// construction.
///
/// The key set is closed, so the collection is a slot per attribute name.
/// Binding the same key twice overwrites: the last write wins. Extraction is
/// destructive, so a double extraction of the same attribute shows up as a
/// missing-parameter error rather than passing silently.
pub struct Mapping {
    x: Option<Operation>,
    y: Option<Operation>,
    r: Option<Operation>,
    g: Option<Operation>,
    b: Option<Operation>,
    radius: Option<Operation>,
    line_width: Option<Operation>,
    width: Option<Operation>,
    height: Option<Operation>,
}

impl Mapping {
    spec fn slot(&self, param: RenderParam) -> Option<Operation> {
        match param {
            RenderParam::X => self.x,
            RenderParam::Y => self.y,
            RenderParam::R => self.r,
            RenderParam::G => self.g,
            RenderParam::B => self.b,
            RenderParam::Radius => self.radius,
            RenderParam::LineWidth => self.line_width,
            RenderParam::Width => self.width,
            RenderParam::Height => self.height,
        }
    }
}

impl View for Mapping {
    type V = Map<RenderParam, Operation>;

    closed spec fn view(&self) -> Map<RenderParam, Operation> {
        Map::new(|param: RenderParam| self.slot(param) is Some, |param: RenderParam| self.slot(param)->0)
    }
}

impl Mapping {
    fn empty() -> (mapping: Mapping)
        ensures
            mapping@ == Map::<RenderParam, Operation>::empty(),
    {
        let mapping = Mapping {
            x: None,
            y: None,
            r: None,
            g: None,
            b: None,
            radius: None,
            line_width: None,
            width: None,
            height: None,
        };
        proof {
            assert(mapping@ =~= Map::<RenderParam, Operation>::empty());
        }
        mapping
    }

    /// A collection holding one binding.
    pub fn new(from: (RenderParam, Operation)) -> (mapping: Mapping)
        ensures
            mapping@ == Map::<RenderParam, Operation>::empty().insert(from.0, from.1),
    {
        Mapping::empty().add(from)
    }

    /// Adds a binding, overwriting any earlier binding of the same key.
    pub fn add(self, param: (RenderParam, Operation)) -> (mapping: Mapping)
        ensures
            mapping@ == self@.insert(param.0, param.1),
    {
        let key = param.0;
        let mut mapping = self;
        match key {
            RenderParam::X => mapping.x = Some(param.1),
            RenderParam::Y => mapping.y = Some(param.1),
            RenderParam::R => mapping.r = Some(param.1),
            RenderParam::G => mapping.g = Some(param.1),
            RenderParam::B => mapping.b = Some(param.1),
            RenderParam::Radius => mapping.radius = Some(param.1),
            RenderParam::LineWidth => mapping.line_width = Some(param.1),
            RenderParam::Width => mapping.width = Some(param.1),
            RenderParam::Height => mapping.height = Some(param.1),
        }
        proof {
            assert(mapping@ =~= self@.insert(param.0, param.1));
        }
        mapping
    }

    /// Removes and returns the binding for `param`; an absent key is a
    /// missing-parameter error and leaves the collection unchanged.
    pub fn get(&mut self, param: RenderParam) -> (result: Result<Operation, CreationError>)
        ensures
            old(self)@.contains_key(param) ==> {
                &&& result == Ok::<Operation, CreationError>(old(self)@[param])
                &&& final(self)@ == old(self)@.remove(param)
            },
            !old(self)@.contains_key(param) ==> {
                &&& result == Err::<Operation, CreationError>(CreationError::MissingParameter(param))
                &&& *final(self) == *old(self)
            },
    {
        let taken: Option<Operation> = match param {
            RenderParam::X => self.x.take(),
            RenderParam::Y => self.y.take(),
            RenderParam::R => self.r.take(),
            RenderParam::G => self.g.take(),
            RenderParam::B => self.b.take(),
            RenderParam::Radius => self.radius.take(),
            RenderParam::LineWidth => self.line_width.take(),
            RenderParam::Width => self.width.take(),
            RenderParam::Height => self.height.take(),
        };
        proof {
            if old(self)@.contains_key(param) {
                assert(self@ =~= old(self)@.remove(param));
            } else {
                assert(*self =~= *old(self));
            }
        }
        match taken {
            Some(operation) => Ok(operation),
            None => Err(CreationError::MissingParameter(param)),
        }
    }

    /// After every mandatory attribute has been extracted, any remaining key
    /// is an authoring error; the error reports one such key.
    pub fn check_extra_parameters(&self) -> (result: Result<(), CreationError>)
        ensures
            result is Ok <==> self@ =~= Map::<RenderParam, Operation>::empty(),
            result matches Err(error) ==> {
                &&& error matches CreationError::ExtraParameter(param)
                &&& self@.contains_key(param)
            },
    {
        let leftover: Option<RenderParam> = if self.x.is_some() {
            Some(RenderParam::X)
        } else if self.y.is_some() {
            Some(RenderParam::Y)
        } else if self.r.is_some() {
            Some(RenderParam::R)
        } else if self.g.is_some() {
            Some(RenderParam::G)
        } else if self.b.is_some() {
            Some(RenderParam::B)
        } else if self.radius.is_some() {
            Some(RenderParam::Radius)
        } else if self.line_width.is_some() {
            Some(RenderParam::LineWidth)
        } else if self.width.is_some() {
            Some(RenderParam::Width)
        } else if self.height.is_some() {
            Some(RenderParam::Height)
        } else {
            None
        };
        match leftover {
            Some(param) => {
                proof {
                    assert(self@.contains_key(param));
                    assert(!(self@ =~= Map::<RenderParam, Operation>::empty())) by {
                        assert(!Map::<RenderParam, Operation>::empty().contains_key(param));
                    }
                }
                Err(CreationError::ExtraParameter(param))
            },
            None => {
                proof {
                    assert(self@ =~= Map::<RenderParam, Operation>::empty());
                }
                Ok(())
            },
        }
    }
}

} // verus!
