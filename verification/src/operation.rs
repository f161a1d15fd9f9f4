//! The arithmetic expression trees that map audio parameters to renderable
//! attribute values.

use vstd::prelude::*;
use crate::audio::AudioParam;

verus! {

/// An immutable arithmetic expression over constants and audio parameters.
///
/// Trees are built bottom-up by the script layer, so they are finite and
/// acyclic by construction. A constant is carried as the bit pattern of the
/// scalar it denotes; the embedding application evaluates a tree against an
/// `AudioPacket` with ordinary 32-bit scalar arithmetic, children before
/// parents, one fresh evaluation per frame.
#[derive(Debug, PartialEq)]
pub enum Operation {
    Const(u32),
    Param(AudioParam),
    Add(Box<Operation>, Box<Operation>),
    Sub(Box<Operation>, Box<Operation>),
    Mul(Box<Operation>, Box<Operation>),
    Div(Box<Operation>, Box<Operation>),
}

} // verus!
