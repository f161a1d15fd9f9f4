//! Scene composition: the ordered object list, the background colour
//! bindings, and the bookkeeping of the scene's output texture.

use vstd::prelude::*;
use crate::operation::Operation;
use crate::renderer::{CreationError, Mapping, RenderParam, Size};
use crate::renderer::object::{first_missing, first_missing_from, ObjectParameters};

verus! {

/// Bookkeeping of the scene's output texture.
///
/// The GPU texture and view themselves live with the embedding application;
/// this model decides when they must change. A resize to the same dimensions
/// is a no-op — the texture is reallocated only when the size really changed
/// — and a reallocation invalidates the cached view. Binding the window's
/// presented surface installs a view without touching the offscreen texture.
pub struct SceneTexture {
    size: Size,
    has_texture: bool,
    has_view: bool,
}

impl SceneTexture {
    /// The size the texture was last allocated at.
    pub closed spec fn spec_size(&self) -> Size {
        self.size
    }

    /// Whether an offscreen texture is currently allocated.
    pub closed spec fn spec_has_texture(&self) -> bool {
        self.has_texture
    }

    /// Whether a view (of the offscreen texture or of the presented surface)
    /// is currently installed.
    pub closed spec fn spec_has_view(&self) -> bool {
        self.has_view
    }

    /// A resize reallocates exactly when the requested size differs from the
    /// current one.
    pub open spec fn spec_needs_realloc(self, size: Size) -> bool {
        self.spec_size() != size
    }

    /// The state after a resize to `size`.
    pub closed spec fn spec_after_resize(self, size: Size) -> SceneTexture {
        if self.size != size {
            SceneTexture { size, has_texture: true, has_view: false }
        } else {
            self
        }
    }

    pub fn new() -> (texture: SceneTexture)
        ensures
            texture.spec_size() == (Size { width: 0, height: 0 }),
            !texture.spec_has_texture(),
            !texture.spec_has_view(),
    {
        SceneTexture { size: Size { width: 0, height: 0 }, has_texture: false, has_view: false }
    }

    /// Tracks a resize of the output to `size`. Returns whether the embedding
    /// must allocate a fresh texture (and drop any view made of the old one);
    /// when the size is unchanged nothing happens.
    pub fn update_size(&mut self, size: Size) -> (realloc: bool)
        ensures
            realloc == old(self).spec_needs_realloc(size),
            *final(self) == old(self).spec_after_resize(size),
            final(self).spec_size() == size,
            realloc ==> final(self).spec_has_texture() && !final(self).spec_has_view(),
            !realloc ==> *final(self) == *old(self),
    {
        if self.size.width != size.width || self.size.height != size.height {
            self.size = size;
            self.has_texture = true;
            self.has_view = false;
            true
        } else {
            false
        }
    }

    /// Tracks binding the window's presented surface as the frame's output
    /// view.
    pub fn set_display(&mut self)
        ensures
            final(self).spec_has_view(),
            final(self).spec_size() == old(self).spec_size(),
            final(self).spec_has_texture() == old(self).spec_has_texture(),
    {
        self.has_view = true;
    }

    /// Tracks making a view to draw into: kept if one is installed, created
    /// from the offscreen texture otherwise. Returns whether the embedding
    /// must create it. Without either a view or a texture there is nothing to
    /// draw into, so that state is ruled out.
    pub fn ensure_view(&mut self) -> (created: bool)
        requires
            old(self).spec_has_view() || old(self).spec_has_texture(),
        ensures
            created == !old(self).spec_has_view(),
            final(self).spec_has_view(),
            final(self).spec_size() == old(self).spec_size(),
            final(self).spec_has_texture() == old(self).spec_has_texture(),
    {
        if !self.has_view {
            self.has_view = true;
            true
        } else {
            false
        }
    }
}

/// Resizing the output to the dimensions it already has — in particular,
/// resizing to the same dimensions twice in a row — reallocates nothing and
/// changes nothing.
pub proof fn lemma_resize_same_size_is_noop(texture: SceneTexture, size: Size)
    ensures
        !texture.spec_after_resize(size).spec_needs_realloc(size),
        texture.spec_after_resize(size).spec_after_resize(size) == texture.spec_after_resize(size),
{
}

/// The attributes a scene's background-colour mapping must bind, in the
/// order they are extracted (and so reported missing) in.
pub open spec fn background_params() -> Seq<RenderParam> {
    seq![RenderParam::R, RenderParam::G, RenderParam::B]
}

/// A scene: an ordered list of renderable objects painted back to front over
/// a background colour, composited once per frame into the output texture.
///
/// The object list and the background expressions are immutable after
/// construction; only the texture bookkeeping changes from frame to frame.
pub struct RenderList {
    objects: Vec<ObjectParameters>,
    r: Operation,
    g: Operation,
    b: Operation,
    tex: SceneTexture,
}

impl RenderList {
    /// The objects, in draw order.
    pub closed spec fn spec_objects(&self) -> Seq<ObjectParameters> {
        self.objects@
    }

    /// The background colour expressions, red, green and blue; each frame
    /// they are evaluated against the current packet and the frame is
    /// cleared to the resulting colour before any object draws.
    pub closed spec fn spec_background(&self) -> (Operation, Operation, Operation) {
        (self.r, self.g, self.b)
    }

    /// The output texture's bookkeeping.
    pub closed spec fn spec_texture(&self) -> SceneTexture {
        self.tex
    }

    /// Builds the scene from its objects and the script's background-colour
    /// bindings. The background mapping must bind red, green and blue;
    /// surplus keys in it are tolerated and ignored.
    pub fn new(objects: Vec<ObjectParameters>, mapping: Mapping) -> (result: Result<RenderList, CreationError>)
        ensures
            result is Ok <==> {
                &&& mapping@.contains_key(RenderParam::R)
                &&& mapping@.contains_key(RenderParam::G)
                &&& mapping@.contains_key(RenderParam::B)
            },
            result matches Ok(scene) ==> {
                &&& scene.spec_objects() == objects@
                &&& scene.spec_background() == (
                    mapping@[RenderParam::R],
                    mapping@[RenderParam::G],
                    mapping@[RenderParam::B],
                )
                &&& scene.spec_texture().spec_size() == (Size { width: 0, height: 0 })
                &&& !scene.spec_texture().spec_has_texture()
                &&& !scene.spec_texture().spec_has_view()
            },
            first_missing(mapping@.dom(), background_params()) matches Some(missing)
                ==> result == Err::<RenderList, CreationError>(CreationError::MissingParameter(missing)),
    {
        proof {
            reveal_with_fuel(first_missing_from, 5);
        }
        let mut mapping = mapping;
        let r = match mapping.get(RenderParam::R) {
            Ok(operation) => operation,
            Err(error) => return Err(error),
        };
        let g = match mapping.get(RenderParam::G) {
            Ok(operation) => operation,
            Err(error) => return Err(error),
        };
        let b = match mapping.get(RenderParam::B) {
            Ok(operation) => operation,
            Err(error) => return Err(error),
        };
        Ok(RenderList { objects, r, g, b, tex: SceneTexture::new() })
    }

    /// The objects, in draw order.
    pub fn objects(&self) -> (objects: &Vec<ObjectParameters>)
        ensures
            objects@ == self.spec_objects(),
    {
        &self.objects
    }

    /// The background colour expressions: red, green, blue.
    pub fn background(&self) -> (background: (&Operation, &Operation, &Operation))
        ensures
            (*background.0, *background.1, *background.2) == self.spec_background(),
    {
        (&self.r, &self.g, &self.b)
    }

    /// The output texture's bookkeeping, for reading.
    pub fn texture(&self) -> (texture: &SceneTexture)
        ensures
            *texture == self.spec_texture(),
    {
        &self.tex
    }

    /// The output texture's bookkeeping, for driving a frame; the objects
    /// and the background are untouched by whatever is done with it.
    pub fn texture_mut(&mut self) -> (texture: &mut SceneTexture)
        ensures
            *texture == old(self).spec_texture(),
            final(self).spec_texture() == *final(texture),
            final(self).spec_objects() == old(self).spec_objects(),
            final(self).spec_background() == old(self).spec_background(),
    {
        &mut self.tex
    }
}

} // verus!
