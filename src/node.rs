//! Nodes and their attributes.

use vstd::prelude::*;
use crate::color::Color;
use crate::label::Label;
use crate::utils::{attribute_list_text, sanitize, sanitized, write_attributes, Attribute};

verus! {

pub struct Node {
    pub id: String,
    pub attributes: Vec<NodeAttribute>,
}

pub enum NodeAttribute {
    Color(Color),
    FillColor(Color),
    FontColor(Color),
    Label(Label),
    /// The outline; `None` draws none.
    Shape(Option<Shape>),
    Style(NodeStyle),
    /// Any other attribute, as a key and a value.
    Unknown(String, String),
}

pub enum Shape {
    Box,
    Circle,
    Diamond,
    Egg,
    House,
    Hexagon,
    InvHouse,
    InvTrapezium,
    InvTriangle,
    Note,
    Octagon,
    Parallelogram,
    Pentagon,
    Plain,
    Polygon,
    Septagon,
    Square,
    Star,
    Trapezium,
    Triangle,
    Underline,
    /// Any other shape, written as given.
    Unknown(String),
}

#[derive(Clone, Copy, Debug, PartialEq, Eq, Structural)]
pub enum NodeStyle {
    Bold,
    Dashed,
    Diagonals,
    Dotted,
    Filled,
    Invisible,
    Rounded,
    Solid,
    Striped,
    Wedged,
}

impl Shape {
    /// The name under which the shape is written.
    pub open spec fn text(&self) -> Seq<char> {
        match self {
            Shape::Box => "box"@,
            Shape::Circle => "circle"@,
            Shape::Diamond => "diamond"@,
            Shape::Egg => "egg"@,
            Shape::Hexagon => "hexagon"@,
            Shape::House => "house"@,
            Shape::InvHouse => "invhouse"@,
            Shape::InvTrapezium => "invtrapezium"@,
            Shape::InvTriangle => "invtriangle"@,
            Shape::Note => "note"@,
            Shape::Octagon => "octagon"@,
            Shape::Pentagon => "pentagon"@,
            Shape::Parallelogram => "parallelogram"@,
            Shape::Plain => "plain"@,
            Shape::Polygon => "polygon"@,
            Shape::Septagon => "septagon"@,
            Shape::Square => "square"@,
            Shape::Star => "star"@,
            Shape::Trapezium => "trapezium"@,
            Shape::Triangle => "triangle"@,
            Shape::Underline => "underline"@,
            Shape::Unknown(s) => s@,
        }
    }

    pub fn as_str(&self) -> (r: &str)
        ensures
            r@ == self.text(),
    {
        match self {
            Shape::Box => "box",
            Shape::Circle => "circle",
            Shape::Diamond => "diamond",
            Shape::Egg => "egg",
            Shape::Hexagon => "hexagon",
            Shape::House => "house",
            Shape::InvHouse => "invhouse",
            Shape::InvTrapezium => "invtrapezium",
            Shape::InvTriangle => "invtriangle",
            Shape::Note => "note",
            Shape::Octagon => "octagon",
            Shape::Pentagon => "pentagon",
            Shape::Parallelogram => "parallelogram",
            Shape::Plain => "plain",
            Shape::Polygon => "polygon",
            Shape::Septagon => "septagon",
            Shape::Square => "square",
            Shape::Star => "star",
            Shape::Trapezium => "trapezium",
            Shape::Triangle => "triangle",
            Shape::Underline => "underline",
            Shape::Unknown(s) => s.as_str(),
        }
    }
}

impl NodeStyle {
    /// The name under which the style is written.
    pub open spec fn text(&self) -> Seq<char> {
        match self {
            NodeStyle::Bold => "bold"@,
            NodeStyle::Dashed => "dashed"@,
            NodeStyle::Diagonals => "diagonals"@,
            NodeStyle::Dotted => "dotted"@,
            NodeStyle::Filled => "filled"@,
            NodeStyle::Invisible => "invis"@,
            NodeStyle::Rounded => "rounded"@,
            NodeStyle::Solid => "solid"@,
            NodeStyle::Striped => "striped"@,
            NodeStyle::Wedged => "wedged"@,
        }
    }

    pub fn as_str(&self) -> (r: &'static str)
        ensures
            r@ == self.text(),
    {
        match self {
            NodeStyle::Bold => "bold",
            NodeStyle::Dashed => "dashed",
            NodeStyle::Diagonals => "diagonals",
            NodeStyle::Dotted => "dotted",
            NodeStyle::Filled => "filled",
            NodeStyle::Invisible => "invis",
            NodeStyle::Rounded => "rounded",
            NodeStyle::Solid => "solid",
            NodeStyle::Striped => "striped",
            NodeStyle::Wedged => "wedged",
        }
    }
}

impl Attribute for NodeAttribute {
    open spec fn key_text(&self) -> Seq<char> {
        match self {
            NodeAttribute::Color(_) => "color"@,
            NodeAttribute::FillColor(_) => "fillcolor"@,
            NodeAttribute::FontColor(_) => "fontcolor"@,
            NodeAttribute::Label(_) => "label"@,
            NodeAttribute::Shape(_) => "shape"@,
            NodeAttribute::Style(_) => "style"@,
            NodeAttribute::Unknown(key, _) => sanitized(key@),
        }
    }

    open spec fn value_text(&self) -> Seq<char> {
        match self {
            NodeAttribute::Color(c) => sanitized(c.text()),
            NodeAttribute::FillColor(c) => sanitized(c.text()),
            NodeAttribute::FontColor(c) => sanitized(c.text()),
            NodeAttribute::Label(l) => l.text(),
            NodeAttribute::Shape(Some(s)) => s.text(),
            NodeAttribute::Shape(None) => "none"@,
            NodeAttribute::Style(s) => s.text(),
            NodeAttribute::Unknown(_, value) => sanitized(value@),
        }
    }

    fn pair(&self) -> (r: (String, String)) {
        match self {
            NodeAttribute::Color(c) => (
                String::from_str("color"),
                sanitize(c.as_string().as_str()),
            ),
            NodeAttribute::FillColor(c) => (
                String::from_str("fillcolor"),
                sanitize(c.as_string().as_str()),
            ),
            NodeAttribute::FontColor(c) => (
                String::from_str("fontcolor"),
                sanitize(c.as_string().as_str()),
            ),
            NodeAttribute::Label(l) => (String::from_str("label"), l.as_string()),
            NodeAttribute::Shape(Some(s)) => (String::from_str("shape"), String::from_str(s.as_str())),
            NodeAttribute::Shape(None) => (String::from_str("shape"), String::from_str("none")),
            NodeAttribute::Style(s) => (String::from_str("style"), String::from_str(s.as_str())),
            NodeAttribute::Unknown(key, value) => (
                sanitize(key.as_str()),
                sanitize(value.as_str()),
            ),
        }
    }
}

impl Node {
    /// The node as it is written: its identifier, then its attributes if it
    /// has any.
    pub open spec fn text(&self) -> Seq<char> {
        sanitized(self.id@) + if self.attributes@.len() == 0 {
            Seq::<char>::empty()
        } else {
            attribute_list_text(self.attributes@)
        }
    }

    pub fn new(id: &str) -> (r: Node)
        ensures
            r.id@ == id@,
            r.attributes@.len() == 0,
    {
        Node { id: String::from_str(id), attributes: Vec::new() }
    }

    pub fn color(self, color: Color) -> (r: Node)
        ensures
            r.id == self.id,
            r.attributes@ == self.attributes@.push(NodeAttribute::Color(color)),
    {
        self.attribute(NodeAttribute::Color(color))
    }

    pub fn fill_color(self, color: Color) -> (r: Node)
        ensures
            r.id == self.id,
            r.attributes@ == self.attributes@.push(NodeAttribute::FillColor(color)),
    {
        self.attribute(NodeAttribute::FillColor(color))
    }

    pub fn font_color(self, color: Color) -> (r: Node)
        ensures
            r.id == self.id,
            r.attributes@ == self.attributes@.push(NodeAttribute::FontColor(color)),
    {
        self.attribute(NodeAttribute::FontColor(color))
    }

    /// Adds a text label.
    pub fn label(self, label: &str) -> (r: Node)
        ensures
            r.id == self.id,
            r.attributes@ == self.attributes@.push(r.attributes@.last()),
            r.attributes@.last() matches NodeAttribute::Label(Label::Text(t)) && t@ == label@,
    {
        self.attribute(NodeAttribute::Label(Label::Text(String::from_str(label))))
    }

    pub fn shape(self, shape: Option<Shape>) -> (r: Node)
        ensures
            r.id == self.id,
            r.attributes@ == self.attributes@.push(NodeAttribute::Shape(shape)),
    {
        self.attribute(NodeAttribute::Shape(shape))
    }

    pub fn style(self, style: NodeStyle) -> (r: Node)
        ensures
            r.id == self.id,
            r.attributes@ == self.attributes@.push(NodeAttribute::Style(style)),
    {
        self.attribute(NodeAttribute::Style(style))
    }

    pub fn attribute(self, attribute: NodeAttribute) -> (r: Node)
        ensures
            r.id == self.id,
            r.attributes@ == self.attributes@.push(attribute),
    {
        let mut r = self;
        r.attributes.push(attribute);
        r
    }

    /// Appends the node's text to `out`.
    pub fn write(&self, out: &mut String)
        ensures
            final(out)@ == old(out)@ + self.text(),
    {
        out.append(sanitize(self.id.as_str()).as_str());
        if self.attributes.len() > 0 {
            write_attributes(&self.attributes, out);
        }
        assert(out@ =~= old(out)@ + self.text());
    }
}

} // verus!
