use vstd::prelude::*;
use crate::colour::Colour;
use crate::layout::IntrinsicSize;

verus! {

/// A node of the built widget tree: what a [`Widget`] turns into before it is
/// laid out and drawn.
#[derive(Debug)]
pub struct WidgetBody {
    pub layout: crate::layout::Layout,
    pub children: Vec<WidgetBody>,
    pub intrinsic_size: IntrinsicSize,
    pub colour: Colour,
    /// The upper left corner, in pixels from the window's upper left corner.
    pub position: (i32, i32),
    /// Width and height in pixels.
    pub size: (u32, u32),
}

impl WidgetBody {
    /// A node that has not been laid out yet: placed at the origin, with no
    /// size.
    pub fn new(
        layout: crate::layout::Layout,
        intrinsic_size: IntrinsicSize,
        colour: Colour,
        children: Vec<WidgetBody>,
    ) -> (r: WidgetBody)
        ensures
            r.layout == layout,
            r.intrinsic_size == intrinsic_size,
            r.colour == colour,
            r.children@ == children@,
            r.position == (0i32, 0i32),
            r.size == (0u32, 0u32),
    {
        WidgetBody { layout, children, intrinsic_size, colour, position: (0, 0), size: (0, 0) }
    }
}

/// Anything that can be placed in the window and given a size.
pub trait Drawable {
    /// Where the item currently is.
    spec fn spec_position(&self) -> (i32, i32);

    /// The item's current width and height.
    spec fn spec_size(&self) -> (u32, u32);

    /// Set the position; positions start from the upper left corner.
    fn position(&mut self, x: i32, y: i32)
        ensures
            final(self).spec_position() == (x, y),
            final(self).spec_size() == old(self).spec_size(),
    ;

    fn get_position(&self) -> (r: (i32, i32))
        ensures
            r == self.spec_position(),
    ;

    /// Set the width and height.
    fn size(&mut self, width: u32, height: u32)
        ensures
            final(self).spec_size() == (width, height),
            final(self).spec_position() == old(self).spec_position(),
    ;

    fn get_size(&self) -> (r: (u32, u32))
        ensures
            r == self.spec_size(),
    ;
}

impl Drawable for WidgetBody {
    open spec fn spec_position(&self) -> (i32, i32) {
        self.position
    }

    open spec fn spec_size(&self) -> (u32, u32) {
        self.size
    }

    fn position(&mut self, x: i32, y: i32) {
        self.position = (x, y);
    }

    fn get_position(&self) -> (r: (i32, i32)) {
        self.position
    }

    fn size(&mut self, width: u32, height: u32) {
        self.size = (width, height);
    }

    fn get_size(&self) -> (r: (u32, u32)) {
        self.size
    }
}

/// A piece of the user interface. Building it yields the node that the
/// layout and the renderer work on.
pub trait Widget {
    fn build(&self) -> WidgetBody;
}

/// The sizing constraint of a widget: `Fit` the children, `Fill` the parent,
/// `Relative` to the parent as a percentage of its width and height, or a
/// `Fixed` size in pixels.
#[derive(Debug, Clone, Copy, PartialEq, Eq, Structural)]
pub enum SizeContraint {
    Fill,
    Fit,
    Relative(u32, u32),
    Fixed(u32, u32),
}

/// A strategy that arranges children inside a constraint of
/// `[max_width, max_height]` and reports the size it used.
pub trait Layout {
    fn arrange(&self, constraint: [u32; 2], children: Vec<Box<dyn Widget>>) -> (u32, u32);
}

/// Places children one under the other, `spacing` pixels apart.
pub struct VerticalLayout {
    pub spacing: u32,
}

impl VerticalLayout {
    pub fn new(spacing: u32) -> (r: Self)
        ensures
            r.spacing == spacing,
    {
        Self { spacing }
    }
}

impl Layout for VerticalLayout {
    /// Arranges nothing yet: reports an empty size.
    fn arrange(&self, _constraint: [u32; 2], _children: Vec<Box<dyn Widget>>) -> (r: (u32, u32))
        ensures
            r == (0u32, 0u32),
    {
        (0, 0)
    }
}

} // verus!
