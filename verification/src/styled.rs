use vstd::prelude::*;

verus! {

/// A terminal color used when a piece of text is shown to the user.
#[derive(Clone, Copy, Debug, PartialEq, Eq, Structural)]
pub enum Color {
    Red,
    Green,
    Blue,
    Yellow,
}

/// How one piece of text is rendered.
#[derive(Clone, Copy, Debug, PartialEq, Eq, Structural)]
pub enum Style {
    Plain,
    Colored(Color),
    Underline,
}

/// A piece of text together with its style.
#[derive(Debug)]
pub struct Segment {
    pub text: String,
    pub style: Style,
}

impl Segment {
    pub open spec fn view(&self) -> (Seq<char>, Style) {
        (self.text@, self.style)
    }

    /// Builds a segment from a literal.
    pub fn new(text: &str, style: Style) -> (res: Segment)
        ensures
            res.text@ == text@,
            res.style == style,
    {
        Segment { text: String::from_str(text), style }
    }
}

/// The views of a sequence of segments.
pub open spec fn segments_view(segs: Seq<Segment>) -> Seq<(Seq<char>, Style)> {
    segs.map_values(|s: Segment| s.view())
}


/// Appends a segment made from a literal.
pub fn push_lit(v: &mut Vec<Segment>, text: &str, style: Style)
    ensures
        segments_view(final(v)@) == segments_view(old(v)@).push((text@, style)),
{
    let ghost before = segments_view(v@);
    v.push(Segment::new(text, style));
    assert(segments_view(v@) =~= before.push((text@, style)));
}

/// Appends a segment that holds a copy of `text`.
pub fn push_text(v: &mut Vec<Segment>, text: &String, style: Style)
    ensures
        segments_view(final(v)@) == segments_view(old(v)@).push((text@, style)),
{
    let ghost before = segments_view(v@);
    v.push(Segment { text: text.clone(), style });
    assert(segments_view(v@) =~= before.push((text@, style)));
}

/// "Yes" in green or "No" in red.
pub open spec fn yes_no(value: bool) -> (Seq<char>, Style) {
    if value {
        ("Yes"@, Style::Colored(Color::Green))
    } else {
        ("No"@, Style::Colored(Color::Red))
    }
}

/// Shows a flag as "Yes" in green or "No" in red.
pub fn bool_colorized(value: bool) -> (res: Segment)
    ensures
        res.view() == yes_no(value),
{
    if value {
        Segment::new("Yes", Style::Colored(Color::Green))
    } else {
        Segment::new("No", Style::Colored(Color::Red))
    }
}

/// Appends "Yes" or "No".
pub fn push_flag(v: &mut Vec<Segment>, value: bool)
    ensures
        segments_view(final(v)@) == segments_view(old(v)@).push(yes_no(value)),
{
    let ghost before = segments_view(v@);
    v.push(bool_colorized(value));
    assert(segments_view(v@) =~= before.push(yes_no(value)));
}
} // verus!
