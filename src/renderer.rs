//! The controller of the drawing surface: its committed size, the redraw
//! that a change of size makes necessary, and the content it paints.
use crate::orientation::{detect_orientation, orientation_of, Orientation};
use crate::size::{resolved, Measurement, Size};
use vstd::prelude::*;

verus! {

/// The fill colour of the drawing, as `0xRRGGBB` (CSS "green").
pub const GREEN: u32 = 0x00_80_00;

/// The width in pixels of the stroked lines.
pub const LINE_WIDTH: u32 = 5;

/// One primitive operation of a 2D drawing context, in pixel coordinates.
#[derive(Debug, Clone, Copy, PartialEq, Eq, Structural)]
pub enum DrawCommand {
    BeginPath,
    FillRect { x: u32, y: u32, width: u32, height: u32 },
    SetFillStyle { rgb: u32 },
    SetLineWidth { width: u32 },
    MoveTo { x: u32, y: u32 },
    LineTo { x: u32, y: u32 },
    Stroke,
}

/// What a `Renderer` holds: the committed size of the surface, the
/// orientation last read from the style, and whether the surface was resized
/// since it was last painted.
#[derive(Debug, Clone, Copy, PartialEq, Eq, Structural)]
pub struct SurfaceState {
    pub size: Size,
    pub orientation: Orientation,
    pub redraw_pending: bool,
}

/// The drawing of a surface of the given size: the fill colour set first (a
/// resize resets the drawing context, so no paint may rely on a style left by
/// an earlier one), the surface filled, then a cross of its two diagonals.
pub open spec fn cross_pattern(size: Size) -> Seq<DrawCommand> {
    let w = size.width;
    let h = size.height;
    seq![
        DrawCommand::SetFillStyle { rgb: GREEN },
        DrawCommand::BeginPath,
        DrawCommand::FillRect { x: 0, y: 0, width: w, height: h },
        DrawCommand::SetLineWidth { width: LINE_WIDTH },
        DrawCommand::MoveTo { x: 0, y: 0 },
        DrawCommand::LineTo { x: w, y: h },
        DrawCommand::MoveTo { x: w, y: 0 },
        DrawCommand::LineTo { x: 0, y: h },
        DrawCommand::Stroke,
    ]
}

/// What a surface in state `s` paints: it depends on the committed size
/// alone.
pub open spec fn painted(s: SurfaceState) -> Seq<DrawCommand> {
    cross_pattern(s.size)
}

/// The state after a redraw: the size is kept and nothing is pending.
pub open spec fn after_redraw(s: SurfaceState) -> SurfaceState {
    SurfaceState { redraw_pending: false, ..s }
}

/// The renderer of one drawing surface.
pub struct Renderer {
    size: Size,
    orientation: Orientation,
    redraw_pending: bool,
}

impl View for Renderer {
    type V = SurfaceState;

    closed spec fn view(&self) -> SurfaceState {
        SurfaceState {
            size: self.size,
            orientation: self.orientation,
            redraw_pending: self.redraw_pending,
        }
    }
}

impl Renderer {
    /// A renderer for a surface whose current attributes give `width` and
    /// `height`; it starts idle, with a horizontal orientation.
    pub fn new(width: u32, height: u32) -> (r: Renderer)
        ensures
            r@.size == (Size { width, height }),
            r@.orientation == Orientation::Horizontal,
            !r@.redraw_pending,
    {
        Renderer {
            size: Size { width, height },
            orientation: Orientation::Horizontal,
            redraw_pending: false,
        }
    }

    /// The committed size of the surface.
    pub fn size(&self) -> (r: Size)
        ensures
            r == self@.size,
    {
        self.size
    }

    /// The orientation last read from the style.
    pub fn orientation(&self) -> (r: Orientation)
        ensures
            r == self@.orientation,
    {
        self.orientation
    }

    /// Whether the surface was resized and not yet painted again.
    pub fn redraw_pending(&self) -> (r: bool)
        ensures
            r == self@.redraw_pending,
    {
        self.redraw_pending
    }

    /// Commits a new size. A resized surface loses its content, so a redraw
    /// becomes pending.
    pub fn resize(&mut self, size: Size)
        ensures
            final(self)@.size == size,
            final(self)@.orientation == old(self)@.orientation,
            final(self)@.redraw_pending,
    {
        self.size = size;
        self.redraw_pending = true;
    }

    /// Handles a new measurement of the surface's container, with the
    /// current `writing-mode` of the surface: refreshes the orientation,
    /// resolves and commits the pixel size, and returns that size, which the
    /// caller sets as the surface's own width and height.
    pub fn on_layout_changed(&mut self, measurement: &Measurement, writing_mode: &str) -> (r:
        Size)
        ensures
            final(self)@.orientation == orientation_of(writing_mode@),
            r@ == resolved(*measurement, final(self)@.orientation),
            final(self)@.size == r,
            r.within_limits(),
            final(self)@.redraw_pending,
    {
        let orientation = detect_orientation(writing_mode);
        let size = Size::compute(measurement, orientation);
        self.orientation = orientation;
        self.resize(size);
        size
    }

    /// Paints the surface at its committed size; the pending redraw, if any,
    /// is done.
    pub fn request_redraw(&mut self) -> (commands: Vec<DrawCommand>)
        ensures
            final(self)@ == after_redraw(old(self)@),
            commands@ == painted(old(self)@),
    {
        let commands = self.render();
        self.redraw_pending = false;
        commands
    }

    /// The drawing commands that fill the surface at its committed size.
    pub fn render(&self) -> (commands: Vec<DrawCommand>)
        ensures
            commands@ == painted(self@),
    {
        let w = self.size.width;
        let h = self.size.height;
        let commands = vec![
            DrawCommand::SetFillStyle { rgb: GREEN },
            DrawCommand::BeginPath,
            DrawCommand::FillRect { x: 0, y: 0, width: w, height: h },
            DrawCommand::SetLineWidth { width: LINE_WIDTH },
            DrawCommand::MoveTo { x: 0, y: 0 },
            DrawCommand::LineTo { x: w, y: h },
            DrawCommand::MoveTo { x: w, y: 0 },
            DrawCommand::LineTo { x: 0, y: h },
            DrawCommand::Stroke,
        ];
        assert(commands@ =~= painted(self@));
        commands
    }
}

/// Painting repeats itself: a redraw leaves the drawing unchanged, so any
/// number of paints without a change of layout in between give the same
/// commands.
pub proof fn lemma_render_idempotent(s: SurfaceState)
    ensures
        painted(after_redraw(s)) == painted(s),
        painted(after_redraw(after_redraw(s))) == painted(s),
{
}

} // verus!
