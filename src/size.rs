//! From a layout measurement to the pixel size of the surface.
use crate::length::{exceeds_max_dimension, lemma_oversized_length_clamped, pixel_length, pixel_length_of, MAX_DIMENSION};
use crate::orientation::Orientation;
use vstd::prelude::*;

verus! {

/// A container's size as a layout observer reports it, along the text-flow
/// axes. Each length is given by its binary64 (double precision) encoding.
#[derive(Debug, Clone, Copy, PartialEq, Eq, Structural)]
pub struct Measurement {
    /// Length along the direction in which text flows.
    pub inline_size: u64,
    /// Length across the direction in which text flows.
    pub block_size: u64,
}

/// A size in pixels along the screen axes.
#[derive(Debug, Clone, Copy, PartialEq, Eq, Structural)]
pub struct Size {
    /// The width in pixels.
    pub width: u32,
    /// The height in pixels.
    pub height: u32,
}

impl View for Size {
    type V = (nat, nat);

    open spec fn view(&self) -> (nat, nat) {
        (self.width as nat, self.height as nat)
    }
}

impl Size {
    /// Both sides lie within the largest dimension of a surface.
    pub open spec fn within_limits(&self) -> bool {
        self.width <= MAX_DIMENSION && self.height <= MAX_DIMENSION
    }
}

/// The pixel size of the surface for a measurement: the inline axis is the
/// width when text flows horizontally and the height when it flows
/// vertically.
pub open spec fn resolved(m: Measurement, o: Orientation) -> (nat, nat) {
    match o {
        Orientation::Horizontal => (pixel_length(m.inline_size), pixel_length(m.block_size)),
        Orientation::Vertical => (pixel_length(m.block_size), pixel_length(m.inline_size)),
    }
}

impl Size {
    /// Computes the surface's pixel size from a measurement of its container
    /// and the orientation of the writing mode.
    pub fn compute(measurement: &Measurement, orientation: Orientation) -> (r: Size)
        ensures
            r@ == resolved(*measurement, orientation),
            orientation == Orientation::Horizontal ==> r.width == pixel_length(
                measurement.inline_size,
            ) && r.height == pixel_length(measurement.block_size),
            orientation == Orientation::Vertical ==> r.width == pixel_length(
                measurement.block_size,
            ) && r.height == pixel_length(measurement.inline_size),
            r.within_limits(),
    {
        let (inline_size, block_size) = Size::raw_sizes(measurement);
        let (width, height) = match orientation {
            Orientation::Horizontal => (inline_size, block_size),
            Orientation::Vertical => (block_size, inline_size),
        };
        Size { width, height }
    }

    /// The inline and block lengths in pixels: rounded, halves away from
    /// zero, and limited to `0 ..= MAX_DIMENSION`.
    pub fn raw_sizes(measurement: &Measurement) -> (r: (u32, u32))
        ensures
            r.0 == pixel_length(measurement.inline_size),
            r.1 == pixel_length(measurement.block_size),
            r.0 <= MAX_DIMENSION,
            r.1 <= MAX_DIMENSION,
    {
        (pixel_length_of(measurement.inline_size), pixel_length_of(measurement.block_size))
    }
}

/// A vertical writing mode gives the horizontal size with width and height
/// swapped.
pub proof fn lemma_vertical_transposes(m: Measurement)
    ensures
        resolved(m, Orientation::Vertical) == (
            resolved(m, Orientation::Horizontal).1,
            resolved(m, Orientation::Horizontal).0,
        ),
{
}

/// Each axis whose reported length exceeds the largest surface dimension is
/// clamped to exactly that dimension, in either orientation; the other axis
/// keeps its own rounded length.
pub proof fn lemma_oversized_axes_clamped(m: Measurement, o: Orientation)
    ensures
        exceeds_max_dimension(m.inline_size) ==> (match o {
            Orientation::Horizontal => resolved(m, o).0,
            Orientation::Vertical => resolved(m, o).1,
        }) == MAX_DIMENSION,
        exceeds_max_dimension(m.block_size) ==> (match o {
            Orientation::Horizontal => resolved(m, o).1,
            Orientation::Vertical => resolved(m, o).0,
        }) == MAX_DIMENSION,
        exceeds_max_dimension(m.inline_size) && exceeds_max_dimension(m.block_size) ==> resolved(
            m,
            o,
        ) == (MAX_DIMENSION as nat, MAX_DIMENSION as nat),
{
    if exceeds_max_dimension(m.inline_size) {
        lemma_oversized_length_clamped(m.inline_size);
    }
    if exceeds_max_dimension(m.block_size) {
        lemma_oversized_length_clamped(m.block_size);
    }
}

} // verus!
