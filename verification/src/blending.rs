//! The blend equations that the renderer configures for each blend mode.

use vstd::prelude::*;

use crate::shader_types::BlendMode;

verus! {

/// A factor that a source or destination colour is multiplied by.
#[derive(Debug, Clone, Copy, PartialEq, Eq, Structural)]
pub enum BlendFactor {
    /// 0.
    Zero,
    /// 1.
    One,
    /// The destination value.
    Dst,
    /// 1 minus the source value.
    OneMinusSrc,
}

/// How the weighted source and destination are combined.
#[derive(Debug, Clone, Copy, PartialEq, Eq, Structural)]
pub enum BlendOperation {
    /// Source plus destination.
    Add,
}

/// The blend equation of one channel group.
#[derive(Debug, Clone, Copy, PartialEq, Eq, Structural)]
pub struct BlendComponent {
    pub src_factor: BlendFactor,
    pub dst_factor: BlendFactor,
    pub operation: BlendOperation,
}

/// The blend equations for colour and alpha.
#[derive(Debug, Clone, Copy, PartialEq, Eq, Structural)]
pub struct BlendState {
    pub color: BlendComponent,
    pub alpha: BlendComponent,
}

/// `src * s + dst * d`.
pub open spec fn adding(s: BlendFactor, d: BlendFactor) -> BlendComponent {
    BlendComponent { src_factor: s, dst_factor: d, operation: BlendOperation::Add }
}

/// The blend state of a mode: normal blending replaces the destination;
/// the others add the source to the destination in alpha, and in colour
/// add it (additive and overlay), multiply the destination by it
/// (multiply), or add it to the part of the destination it leaves
/// uncovered (screen).
pub open spec fn blend_state_of(mode: BlendMode) -> BlendState {
    let replace = adding(BlendFactor::One, BlendFactor::Zero);
    let add = adding(BlendFactor::One, BlendFactor::One);
    match mode {
        BlendMode::Normal => BlendState { color: replace, alpha: replace },
        BlendMode::Add => BlendState { color: add, alpha: add },
        BlendMode::Multiply => BlendState {
            color: adding(BlendFactor::Dst, BlendFactor::Zero),
            alpha: add,
        },
        BlendMode::Screen => BlendState {
            color: adding(BlendFactor::One, BlendFactor::OneMinusSrc),
            alpha: add,
        },
        BlendMode::Overlay => BlendState { color: add, alpha: add },
    }
}

/// `src * s + dst * d`.
fn add_component(s: BlendFactor, d: BlendFactor) -> (c: BlendComponent)
    ensures
        c == adding(s, d),
{
    BlendComponent { src_factor: s, dst_factor: d, operation: BlendOperation::Add }
}

/// The blend state the renderer sets for a blend mode.
pub fn get_blend_state(mode: BlendMode) -> (s: BlendState)
    ensures
        s == blend_state_of(mode),
{
    let add = add_component(BlendFactor::One, BlendFactor::One);
    match mode {
        BlendMode::Normal => {
            let replace = add_component(BlendFactor::One, BlendFactor::Zero);
            BlendState { color: replace, alpha: replace }
        },
        BlendMode::Add => BlendState { color: add, alpha: add },
        BlendMode::Multiply => BlendState {
            color: add_component(BlendFactor::Dst, BlendFactor::Zero),
            alpha: add,
        },
        BlendMode::Screen => BlendState {
            color: add_component(BlendFactor::One, BlendFactor::OneMinusSrc),
            alpha: add,
        },
        BlendMode::Overlay => BlendState { color: add, alpha: add },
    }
}

} // verus!
