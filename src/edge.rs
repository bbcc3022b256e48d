//! Edges and their attributes.

use vstd::prelude::*;
use crate::color::Color;
use crate::compass_point::CompassPoint;
use crate::label::Label;
use crate::utils::{attribute_list_text, sanitize, sanitized, write_attributes, Attribute};

verus! {

pub struct Edge {
    pub from: String,
    pub to: String,
    pub attributes: Vec<EdgeAttribute>,
}

pub enum EdgeAttribute {
    Color(Color),
    HeadLabel(Label),
    HeadPort(CompassPoint),
    Label(Label),
    LHead(String),
    LTail(String),
    /// The pen width, as the decimal text of a number.
    PenWidth(String),
    SameHead(String),
    SameTail(String),
    Style(EdgeStyle),
    TailLabel(Label),
    TailPort(CompassPoint),
    /// Any other attribute, as a key and a value.
    Unknown(String, String),
}

#[derive(Clone, Copy, Debug, PartialEq, Eq, Structural)]
pub enum EdgeStyle {
    Bold,
    Dashed,
    Dotted,
    Invisible,
    Solid,
    Tapered,
}

impl EdgeStyle {
    /// The name under which the style is written.
    pub open spec fn text(&self) -> Seq<char> {
        match self {
            EdgeStyle::Bold => "bold"@,
            EdgeStyle::Dashed => "dashed"@,
            EdgeStyle::Dotted => "dotted"@,
            EdgeStyle::Invisible => "invis"@,
            EdgeStyle::Solid => "solid"@,
            EdgeStyle::Tapered => "tapered"@,
        }
    }

    pub fn as_str(&self) -> (r: &'static str)
        ensures
            r@ == self.text(),
    {
        match self {
            EdgeStyle::Bold => "bold",
            EdgeStyle::Dashed => "dashed",
            EdgeStyle::Dotted => "dotted",
            EdgeStyle::Invisible => "invis",
            EdgeStyle::Solid => "solid",
            EdgeStyle::Tapered => "tapered",
        }
    }
}

impl Attribute for EdgeAttribute {
    open spec fn key_text(&self) -> Seq<char> {
        match self {
            EdgeAttribute::Color(_) => "color"@,
            EdgeAttribute::HeadLabel(_) => "headlabel"@,
            EdgeAttribute::HeadPort(_) => "headport"@,
            EdgeAttribute::Label(_) => "label"@,
            EdgeAttribute::LHead(_) => "lhead"@,
            EdgeAttribute::LTail(_) => "ltail"@,
            EdgeAttribute::PenWidth(_) => "penwidth"@,
            EdgeAttribute::SameHead(_) => "samehead"@,
            EdgeAttribute::SameTail(_) => "sametail"@,
            EdgeAttribute::Style(_) => "style"@,
            EdgeAttribute::TailLabel(_) => "taillabel"@,
            EdgeAttribute::TailPort(_) => "tailport"@,
            EdgeAttribute::Unknown(key, _) => sanitized(key@),
        }
    }

    open spec fn value_text(&self) -> Seq<char> {
        match self {
            EdgeAttribute::Color(c) => sanitized(c.text()),
            EdgeAttribute::HeadLabel(l) => l.text(),
            EdgeAttribute::HeadPort(p) => p.text(),
            EdgeAttribute::Label(l) => l.text(),
            EdgeAttribute::LHead(s) => sanitized(s@),
            EdgeAttribute::LTail(s) => sanitized(s@),
            EdgeAttribute::PenWidth(w) => w@,
            EdgeAttribute::SameHead(s) => sanitized(s@),
            EdgeAttribute::SameTail(s) => sanitized(s@),
            EdgeAttribute::Style(s) => s.text(),
            EdgeAttribute::TailLabel(l) => l.text(),
            EdgeAttribute::TailPort(p) => p.text(),
            EdgeAttribute::Unknown(_, value) => sanitized(value@),
        }
    }

    fn pair(&self) -> (r: (String, String)) {
        match self {
            EdgeAttribute::Color(c) => (
                String::from_str("color"),
                sanitize(c.as_string().as_str()),
            ),
            EdgeAttribute::HeadLabel(l) => (String::from_str("headlabel"), l.as_string()),
            EdgeAttribute::HeadPort(p) => (String::from_str("headport"), String::from_str(p.as_str())),
            EdgeAttribute::Label(l) => (String::from_str("label"), l.as_string()),
            EdgeAttribute::LHead(s) => (String::from_str("lhead"), sanitize(s.as_str())),
            EdgeAttribute::LTail(s) => (String::from_str("ltail"), sanitize(s.as_str())),
            EdgeAttribute::PenWidth(w) => (String::from_str("penwidth"), w.clone()),
            EdgeAttribute::SameHead(s) => (String::from_str("samehead"), sanitize(s.as_str())),
            EdgeAttribute::SameTail(s) => (String::from_str("sametail"), sanitize(s.as_str())),
            EdgeAttribute::Style(s) => (String::from_str("style"), String::from_str(s.as_str())),
            EdgeAttribute::TailLabel(l) => (String::from_str("taillabel"), l.as_string()),
            EdgeAttribute::TailPort(p) => (String::from_str("tailport"), String::from_str(p.as_str())),
            EdgeAttribute::Unknown(key, value) => (
                sanitize(key.as_str()),
                sanitize(value.as_str()),
            ),
        }
    }
}

/// The arrow between the two ends of an edge.
pub open spec fn arrow_text(directed: bool) -> Seq<char> {
    if directed {
        " -> "@
    } else {
        " -- "@
    }
}

impl Edge {
    /// The edge as it is written: its ends joined by an arrow, then its
    /// attributes if it has any.
    pub open spec fn text(&self, directed: bool) -> Seq<char> {
        sanitized(self.from@) + arrow_text(directed) + sanitized(self.to@) + if self.attributes@.len()
            == 0 {
            Seq::<char>::empty()
        } else {
            attribute_list_text(self.attributes@)
        }
    }

    pub fn new(from: &str, to: &str) -> (r: Edge)
        ensures
            r.from@ == from@,
            r.to@ == to@,
            r.attributes@.len() == 0,
    {
        Edge { from: String::from_str(from), to: String::from_str(to), attributes: Vec::new() }
    }

    pub fn color(self, color: Color) -> (r: Edge)
        ensures
            r.from == self.from && r.to == self.to,
            r.attributes@ == self.attributes@.push(EdgeAttribute::Color(color)),
    {
        self.attribute(EdgeAttribute::Color(color))
    }

    /// Adds a text label at the head.
    pub fn head_label(self, label: &str) -> (r: Edge)
        ensures
            r.from == self.from && r.to == self.to,
            r.attributes@ == self.attributes@.push(r.attributes@.last()),
            r.attributes@.last() matches EdgeAttribute::HeadLabel(Label::Text(t)) && t@ == label@,
    {
        self.attribute(EdgeAttribute::HeadLabel(Label::Text(String::from_str(label))))
    }

    pub fn head_port(self, port: CompassPoint) -> (r: Edge)
        ensures
            r.from == self.from && r.to == self.to,
            r.attributes@ == self.attributes@.push(EdgeAttribute::HeadPort(port)),
    {
        self.attribute(EdgeAttribute::HeadPort(port))
    }

    /// Adds a text label.
    pub fn label(self, label: &str) -> (r: Edge)
        ensures
            r.from == self.from && r.to == self.to,
            r.attributes@ == self.attributes@.push(r.attributes@.last()),
            r.attributes@.last() matches EdgeAttribute::Label(Label::Text(t)) && t@ == label@,
    {
        self.attribute(EdgeAttribute::Label(Label::Text(String::from_str(label))))
    }

    pub fn lhead(self, lhead: &str) -> (r: Edge)
        ensures
            r.from == self.from && r.to == self.to,
            r.attributes@ == self.attributes@.push(r.attributes@.last()),
            r.attributes@.last() matches EdgeAttribute::LHead(t) && t@ == lhead@,
    {
        self.attribute(EdgeAttribute::LHead(String::from_str(lhead)))
    }

    pub fn ltail(self, ltail: &str) -> (r: Edge)
        ensures
            r.from == self.from && r.to == self.to,
            r.attributes@ == self.attributes@.push(r.attributes@.last()),
            r.attributes@.last() matches EdgeAttribute::LTail(t) && t@ == ltail@,
    {
        self.attribute(EdgeAttribute::LTail(String::from_str(ltail)))
    }

    pub fn style(self, style: EdgeStyle) -> (r: Edge)
        ensures
            r.from == self.from && r.to == self.to,
            r.attributes@ == self.attributes@.push(EdgeAttribute::Style(style)),
    {
        self.attribute(EdgeAttribute::Style(style))
    }

    /// Adds a text label at the tail.
    pub fn tail_label(self, label: &str) -> (r: Edge)
        ensures
            r.from == self.from && r.to == self.to,
            r.attributes@ == self.attributes@.push(r.attributes@.last()),
            r.attributes@.last() matches EdgeAttribute::TailLabel(Label::Text(t)) && t@ == label@,
    {
        self.attribute(EdgeAttribute::TailLabel(Label::Text(String::from_str(label))))
    }

    pub fn tail_port(self, port: CompassPoint) -> (r: Edge)
        ensures
            r.from == self.from && r.to == self.to,
            r.attributes@ == self.attributes@.push(EdgeAttribute::TailPort(port)),
    {
        self.attribute(EdgeAttribute::TailPort(port))
    }

    pub fn same_head(self, samehead: &str) -> (r: Edge)
        ensures
            r.from == self.from && r.to == self.to,
            r.attributes@ == self.attributes@.push(r.attributes@.last()),
            r.attributes@.last() matches EdgeAttribute::SameHead(t) && t@ == samehead@,
    {
        self.attribute(EdgeAttribute::SameHead(String::from_str(samehead)))
    }

    pub fn same_tail(self, sametail: &str) -> (r: Edge)
        ensures
            r.from == self.from && r.to == self.to,
            r.attributes@ == self.attributes@.push(r.attributes@.last()),
            r.attributes@.last() matches EdgeAttribute::SameTail(t) && t@ == sametail@,
    {
        self.attribute(EdgeAttribute::SameTail(String::from_str(sametail)))
    }

    /// Sets the pen width; `width` is the decimal text of a number, written
    /// as given.
    pub fn pen_width(self, width: &str) -> (r: Edge)
        ensures
            r.from == self.from && r.to == self.to,
            r.attributes@ == self.attributes@.push(r.attributes@.last()),
            r.attributes@.last() matches EdgeAttribute::PenWidth(t) && t@ == width@,
    {
        self.attribute(EdgeAttribute::PenWidth(String::from_str(width)))
    }

    pub fn attribute(self, attribute: EdgeAttribute) -> (r: Edge)
        ensures
            r.from == self.from && r.to == self.to,
            r.attributes@ == self.attributes@.push(attribute),
    {
        let mut r = self;
        r.attributes.push(attribute);
        r
    }

    /// Appends the edge's text to `out`, with the arrow that `directed` calls
    /// for.
    pub fn write(&self, directed: bool, out: &mut String)
        ensures
            final(out)@ == old(out)@ + self.text(directed),
    {
        out.append(sanitize(self.from.as_str()).as_str());
        if directed {
            out.append(" -> ");
        } else {
            out.append(" -- ");
        }
        out.append(sanitize(self.to.as_str()).as_str());
        if self.attributes.len() > 0 {
            write_attributes(&self.attributes, out);
        }
        assert(out@ =~= old(out)@ + self.text(directed));
    }
}

} // verus!
