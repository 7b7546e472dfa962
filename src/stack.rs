use vstd::prelude::*;
use crate::colour::Colour;
use crate::layout::{IntrinsicSize, Layout, WidgetSize};
use crate::widgets::{Widget, WidgetBody};

verus! {

/// Builds each child, in order.
fn build_children(children: &Vec<Box<dyn Widget>>) -> (r: Vec<WidgetBody>)
    ensures
        r@.len() == children@.len(),
{
    let mut built: Vec<WidgetBody> = Vec::new();
    let mut i: usize = 0;
    while i < children.len()
        invariant
            i <= children@.len(),
            built@.len() == i,
        decreases children@.len() - i,
    {
        built.push(children[i].build());
        i = i + 1;
    }
    built
}

/// Children placed one under the other. It fits its children's width and
/// fills its parent's height.
pub struct VStack {
    pub spacing: u32,
    pub padding: u32,
    pub children: Vec<Box<dyn Widget>>,
    pub colour: Colour,
}

impl Widget for VStack {
    fn build(&self) -> (r: WidgetBody)
        ensures
            r.layout == (Layout::Vertical { spacing: self.spacing, padding: self.padding }),
            r.intrinsic_size == (IntrinsicSize { width: WidgetSize::Fit, height: WidgetSize::Fill }),
            r.colour == self.colour,
            r.children@.len() == self.children@.len(),
            r.position == (0i32, 0i32),
            r.size == (0u32, 0u32),
    {
        WidgetBody::new(
            Layout::Vertical { spacing: self.spacing, padding: self.padding },
            IntrinsicSize { width: WidgetSize::Fit, height: WidgetSize::Fill },
            self.colour,
            build_children(&self.children),
        )
    }
}

impl VStack {
    /// Gives up the stack and hands back its children.
    pub fn get_children(self: Box<Self>) -> (r: Vec<Box<dyn Widget>>)
        ensures
            r@ == self.children@,
    {
        self.children
    }
}

/// Children placed side by side. It fills its parent's width and fits its
/// children's height.
pub struct HStack {
    pub spacing: u32,
    pub padding: u32,
    pub children: Vec<Box<dyn Widget>>,
    pub colour: Colour,
}

impl Widget for HStack {
    fn build(&self) -> (r: WidgetBody)
        ensures
            r.layout == (Layout::Horizontal { spacing: self.spacing, padding: self.padding }),
            r.intrinsic_size == (IntrinsicSize { width: WidgetSize::Fill, height: WidgetSize::Fit }),
            r.colour == self.colour,
            r.children@.len() == self.children@.len(),
            r.position == (0i32, 0i32),
            r.size == (0u32, 0u32),
    {
        WidgetBody::new(
            Layout::Horizontal { spacing: self.spacing, padding: self.padding },
            IntrinsicSize { width: WidgetSize::Fill, height: WidgetSize::Fit },
            self.colour,
            build_children(&self.children),
        )
    }
}

impl HStack {
    /// Gives up the stack and hands back its children.
    pub fn get_children(self: Box<Self>) -> (r: Vec<Box<dyn Widget>>)
        ensures
            r@ == self.children@,
    {
        self.children
    }
}

/// A stack whose direction is given by its `layout`. It fills its parent's
/// width and fits its children's height.
pub struct Stack {
    pub spacing: u32,
    pub padding: u32,
    pub children: Vec<Box<dyn Widget>>,
    pub layout: Layout,
    pub colour: Colour,
}

impl Widget for Stack {
    fn build(&self) -> (r: WidgetBody)
        ensures
            r.layout == self.layout,
            r.intrinsic_size == (IntrinsicSize { width: WidgetSize::Fill, height: WidgetSize::Fit }),
            r.colour == self.colour,
            r.children@.len() == self.children@.len(),
            r.position == (0i32, 0i32),
            r.size == (0u32, 0u32),
    {
        WidgetBody::new(
            self.layout,
            IntrinsicSize { width: WidgetSize::Fill, height: WidgetSize::Fit },
            self.colour,
            build_children(&self.children),
        )
    }
}

impl Stack {
    /// A white stack that places `children` one under the other.
    pub fn vertical(spacing: u32, padding: u32, children: Vec<Box<dyn Widget>>) -> (r: Stack)
        ensures
            r.spacing == spacing,
            r.padding == padding,
            r.layout == (Layout::Vertical { spacing, padding }),
            r.colour == Colour::Rgb(255, 255, 255),
            r.children@ == children@,
    {
        Stack {
            spacing,
            padding,
            colour: Colour::white(),
            layout: Layout::Vertical { spacing, padding },
            children,
        }
    }

    /// A white stack that places `children` side by side.
    pub fn horizontal(spacing: u32, padding: u32, children: Vec<Box<dyn Widget>>) -> (r: Stack)
        ensures
            r.spacing == spacing,
            r.padding == padding,
            r.layout == (Layout::Horizontal { spacing, padding }),
            r.colour == Colour::Rgb(255, 255, 255),
            r.children@ == children@,
    {
        Stack {
            spacing,
            padding,
            colour: Colour::white(),
            layout: Layout::Horizontal { spacing, padding },
            children,
        }
    }

    /// Gives up the stack and hands back its children.
    pub fn get_children(self: Box<Self>) -> (r: Vec<Box<dyn Widget>>)
        ensures
            r@ == self.children@,
    {
        self.children
    }
}

} // verus!
