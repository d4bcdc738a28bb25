//! Shapes of turtles and styles of texts.
use vstd::prelude::*;

verus! {

/// The shape a turtle is drawn with: a built-in shape or an image loaded
/// under a name from a path.
#[derive(Debug, Clone, PartialEq, Eq)]
pub enum TurtleShape {
    Triangle,
    Circle,
    Square,
    Image(String, String),
}

impl TurtleShape {
    /// The name by which the shape is reported.
    pub open spec fn spec_name(self) -> Seq<char> {
        match self {
            TurtleShape::Triangle => "triangle"@,
            TurtleShape::Circle => "circle"@,
            TurtleShape::Square => "square"@,
            TurtleShape::Image(name, _) => "image:"@ + name@,
        }
    }

    /// The name by which the shape is reported: `triangle`, `circle`,
    /// `square`, or `image:` followed by the image's name.
    pub fn to_string(&self) -> (s: String)
        ensures
            s@ == self.spec_name(),
    {
        match self {
            TurtleShape::Triangle => String::from_str("triangle"),
            TurtleShape::Circle => String::from_str("circle"),
            TurtleShape::Square => String::from_str("square"),
            TurtleShape::Image(name, _) => {
                let mut s = String::from_str("image:");
                s.append(name.as_str());
                s
            },
        }
    }

    /// A copy of the shape.
    pub fn duplicate(&self) -> (r: Self)
        ensures
            r == *self,
    {
        match self {
            TurtleShape::Triangle => TurtleShape::Triangle,
            TurtleShape::Circle => TurtleShape::Circle,
            TurtleShape::Square => TurtleShape::Square,
            TurtleShape::Image(name, path) => TurtleShape::Image(name.clone(), path.clone()),
        }
    }
}

/// A style a text can be shown in.
#[derive(Debug, Clone, Copy, PartialEq, Eq, Hash)]
pub enum TextStyle {
    Bold,
    Italic,
    Underline,
}

impl TextStyle {
    /// The style named by a word, if any.
    pub open spec fn spec_from(s: Seq<char>) -> Option<TextStyle> {
        if s == "bold"@ {
            Some(TextStyle::Bold)
        } else if s == "italic"@ {
            Some(TextStyle::Italic)
        } else if s == "underline"@ {
            Some(TextStyle::Underline)
        } else {
            None
        }
    }

    /// The style named `bold`, `italic` or `underline`; `None` for any other
    /// word.
    pub fn from(string: String) -> (r: Option<Self>)
        ensures
            r == Self::spec_from(string@),
    {
        if string == String::from_str("bold") {
            Some(TextStyle::Bold)
        } else if string == String::from_str("italic") {
            Some(TextStyle::Italic)
        } else if string == String::from_str("underline") {
            Some(TextStyle::Underline)
        } else {
            None
        }
    }
}

} // verus!
