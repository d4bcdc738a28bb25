//! Turtle shapes of the first generation of the canvas model.
use vstd::prelude::*;

verus! {

/// The built-in shapes a turtle can be drawn with.
#[derive(Debug, Clone, Copy, PartialEq, Eq)]
pub enum TurtleShape {
    Triangle,
    Circle,
    Square,
}

impl TurtleShape {
    /// The name by which the shape is reported.
    pub open spec fn spec_name(self) -> Seq<char> {
        match self {
            TurtleShape::Triangle => "triangle"@,
            TurtleShape::Circle => "circle"@,
            TurtleShape::Square => "square"@,
        }
    }

    /// The name by which the shape is reported: `triangle`, `circle` or
    /// `square`.
    pub fn to_string(&self) -> (s: String)
        ensures
            s@ == self.spec_name(),
    {
        match self {
            TurtleShape::Triangle => String::from_str("triangle"),
            TurtleShape::Circle => String::from_str("circle"),
            TurtleShape::Square => String::from_str("square"),
        }
    }
}

} // verus!
