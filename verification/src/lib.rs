//! Core of an audio-driven visualiser.
//!
//! A scene of simple shapes is drawn once per tick; the shapes' positions,
//! sizes and colours are computed from the playing track's amplitude by small
//! arithmetic expressions that a scene script declared for each object.
//!
//! This crate holds the parts of the pipeline that can be reasoned about as
//! plain values: the windowed amplitude sampler's index arithmetic, the
//! expression trees, the attribute-binding validation that ties a script's
//! key/value pairs to each object type's mandatory attribute set, and the
//! per-frame bookkeeping of the render target. Scalar samples and attribute
//! values travel through these types as opaque 32-bit words; the embedding
//! application decodes them, performs the numeric evaluation, and owns the
//! GPU, the window and the audio device.

pub mod audio;
pub mod operation;
pub mod renderer;
pub mod script;
