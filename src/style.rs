use vstd::prelude::*;

verus! {

/// A colour as red, green and blue channels.
pub type Rgb = (u8, u8, u8);

/// A visual attribute applied to a run of text.
#[derive(Clone, Copy, Debug, Eq)]
pub enum Style {
    Underlined,
    Bold,
    /// Foreground and background colour.
    Painted(Rgb, Rgb),
    Plain,
}

impl PartialEq for Style {
    fn eq(&self, other: &Style) -> (r: bool)
        ensures
            r == (*self == *other),
    {
        match (self, other) {
            (Style::Underlined, Style::Underlined) => true,
            (Style::Bold, Style::Bold) => true,
            (Style::Plain, Style::Plain) => true,
            (Style::Painted(f1, b1), Style::Painted(f2, b2)) => {
                f1.0 == f2.0 && f1.1 == f2.1 && f1.2 == f2.2 && b1.0 == b2.0 && b1.1 == b2.1
                    && b1.2 == b2.2
            },
            _ => false,
        }
    }
}

impl vstd::std_specs::cmp::PartialEqSpecImpl for Style {
    open spec fn obeys_eq_spec() -> bool {
        true
    }

    open spec fn eq_spec(&self, other: &Style) -> bool {
        *self == *other
    }
}

/// What a `Part` stands for: its characters and its styles, in order.
pub struct PartView {
    pub text: Seq<char>,
    pub styles: Seq<Style>,
}

/// A run of text with the styles applied to it.
#[derive(Clone, Debug)]
pub struct Part {
    pub value: String,
    pub styles: Vec<Style>,
}

impl View for Part {
    type V = PartView;

    open spec fn view(&self) -> PartView {
        PartView { text: self.value@, styles: self.styles@ }
    }
}

/// The plain text of a sequence of parts: their characters, concatenated in
/// order with the styles stripped.
pub open spec fn parts_text(parts: Seq<PartView>) -> Seq<char>
    decreases parts.len(),
{
    if parts.len() == 0 {
        Seq::empty()
    } else {
        parts_text(parts.drop_last()) + parts.last().text
    }
}

/// The number of characters in the plain text of `parts`.
pub open spec fn parts_len(parts: Seq<PartView>) -> nat {
    parts_text(parts).len()
}

/// The plain text of `a + b` is the plain text of `a` followed by that of `b`.
pub proof fn lemma_parts_text_concat(a: Seq<PartView>, b: Seq<PartView>)
    ensures
        parts_text(a + b) == parts_text(a) + parts_text(b),
    decreases b.len(),
{
    if b.len() == 0 {
        assert(a + b =~= a);
        assert(parts_text(b) =~= Seq::<char>::empty());
        assert(parts_text(a) + parts_text(b) =~= parts_text(a));
    } else {
        lemma_parts_text_concat(a, b.drop_last());
        assert((a + b).drop_last() =~= a + b.drop_last());
        assert((a + b).last() == b.last());
        assert(parts_text(a) + parts_text(b.drop_last()) + b.last().text
            =~= parts_text(a) + (parts_text(b.drop_last()) + b.last().text));
    }
}

/// A style list holding `style` alone.
pub fn single_style(style: Style) -> (r: Vec<Style>)
    ensures
        r@ == seq![style],
{
    let mut r: Vec<Style> = Vec::new();
    r.push(style);
    assert(r@ =~= seq![style]);
    r
}

/// Extending a prefix of `parts` by one part extends its text by that part's.
pub proof fn lemma_parts_text_take_next(parts: Seq<PartView>, i: int)
    requires
        0 <= i < parts.len(),
    ensures
        parts_text(parts.take(i + 1)) == parts_text(parts.take(i)) + parts[i].text,
{
    assert(parts.take(i + 1).drop_last() =~= parts.take(i));
}

/// A copy of a style list, element for element.
pub fn copy_styles(styles: &Vec<Style>) -> (r: Vec<Style>)
    ensures
        r@ == styles@,
{
    let mut r: Vec<Style> = Vec::new();
    let mut i: usize = 0;
    while i < styles.len()
        invariant
            i <= styles.len(),
            r@ == styles@.take(i as int),
        decreases styles.len() - i,
    {
        r.push(styles[i]);
        i = i + 1;
        assert(r@ =~= styles@.take(i as int));
    }
    assert(styles@.take(styles.len() as int) =~= styles@);
    r
}

impl Part {
    /// A part holding `value`, with the given styles or, when none are
    /// given, the single style `Plain`.
    pub fn new(value: &str, styles: Option<Vec<Style>>) -> (r: Part)
        ensures
            r.value@ == value@,
            r.styles@ == match styles {
                Some(s) => s@,
                None => seq![Style::Plain],
            },
    {
        match styles {
            Some(s) => Part { value: value.to_owned(), styles: s },
            None => Part { value: value.to_owned(), styles: single_style(Style::Plain) },
        }
    }

    /// A part with the single style `Plain`.
    pub fn plain(value: &str) -> (r: Part)
        ensures
            r@ == (PartView { text: value@, styles: seq![Style::Plain] }),
    {
        Part::new(value, Some(single_style(Style::Plain)))
    }

    /// A part with the single style `Bold`.
    pub fn bold(value: &str) -> (r: Part)
        ensures
            r@ == (PartView { text: value@, styles: seq![Style::Bold] }),
    {
        Part::new(value, Some(single_style(Style::Bold)))
    }

    /// A part with the single style `Underlined`.
    pub fn underlined(value: &str) -> (r: Part)
        ensures
            r@ == (PartView { text: value@, styles: seq![Style::Underlined] }),
    {
        Part::new(value, Some(single_style(Style::Underlined)))
    }

    /// A part painted with the given foreground and background colours.
    pub fn painted(value: &str, foreground: Rgb, background: Rgb) -> (r: Part)
        ensures
            r@ == (PartView { text: value@, styles: seq![Style::Painted(foreground, background)] }),
    {
        Part::new(value, Some(single_style(Style::Painted(foreground, background))))
    }

    /// A copy of this part.
    pub fn duplicate(&self) -> (r: Part)
        ensures
            r@ == self@,
    {
        Part { value: self.value.clone(), styles: copy_styles(&self.styles) }
    }
}

/// One logical row: an ordered sequence of parts.
#[derive(Clone, Debug)]
pub struct Line {
    pub parts: Vec<Part>,
}

impl View for Line {
    type V = Seq<PartView>;

    open spec fn view(&self) -> Seq<PartView> {
        self.parts@.map_values(|p: Part| p@)
    }
}

/// A copy of a list of lines, line for line.
pub fn copy_lines(lines: &Vec<Line>) -> (r: Vec<Line>)
    ensures
        r@.len() == lines@.len(),
        forall|i: int| 0 <= i < lines@.len() ==> #[trigger] r@[i]@ == lines@[i]@,
{
    let mut r: Vec<Line> = Vec::new();
    let mut i: usize = 0;
    while i < lines.len()
        invariant
            i <= lines.len(),
            r@.len() == i,
            forall|j: int| 0 <= j < i ==> #[trigger] r@[j]@ == lines@[j]@,
        decreases lines.len() - i,
    {
        r.push(lines[i].duplicate());
        i = i + 1;
    }
    r
}

impl Line {
    /// A line made of `parts`.
    pub fn new(parts: Vec<Part>) -> (r: Line)
        ensures
            r.parts@ == parts@,
    {
        Line { parts }
    }

    /// A line made of `part` alone.
    pub fn single(part: Part) -> (r: Line)
        ensures
            r@ == seq![part@],
    {
        let mut parts: Vec<Part> = Vec::new();
        parts.push(part);
        let r = Line { parts };
        assert(r@ =~= seq![part@]);
        r
    }

    /// A line of one plain part.
    pub fn plain(value: &str) -> (r: Line)
        ensures
            r@ == seq![PartView { text: value@, styles: seq![Style::Plain] }],
    {
        Line::from_str(value, None)
    }

    /// A line of one plain, empty part.
    pub fn empty() -> (r: Line)
        ensures
            r@ == seq![PartView { text: Seq::empty(), styles: seq![Style::Plain] }],
    {
        let r = Line::plain("");
        proof {
            reveal_strlit("");
        }
        assert(""@ =~= Seq::<char>::empty());
        r
    }

    /// A line of one part holding `from`, with the given styles or `Plain`.
    pub fn from_string(from: String, styles: Option<Vec<Style>>) -> (r: Line)
        ensures
            r@ == seq![
                PartView {
                    text: from@,
                    styles: match styles {
                        Some(s) => s@,
                        None => seq![Style::Plain],
                    },
                },
            ],
    {
        let part = match styles {
            Some(s) => Part { value: from, styles: s },
            None => Part { value: from, styles: single_style(Style::Plain) },
        };
        Line::single(part)
    }

    /// A line of one part holding `from`, with the given styles or `Plain`.
    pub fn from_str(from: &str, styles: Option<Vec<Style>>) -> (r: Line)
        ensures
            r@ == seq![
                PartView {
                    text: from@,
                    styles: match styles {
                        Some(s) => s@,
                        None => seq![Style::Plain],
                    },
                },
            ],
    {
        Line::from_string(from.to_owned(), styles)
    }

    /// The plain text of the line: its parts' values concatenated in order.
    pub fn value(&self) -> (r: String)
        ensures
            r@ == parts_text(self@),
    {
        let mut r = String::new();
        let mut i: usize = 0;
        while i < self.parts.len()
            invariant
                i <= self.parts.len(),
                r@ == parts_text(self@.take(i as int)),
            decreases self.parts.len() - i,
        {
            proof {
                lemma_parts_text_take_next(self@, i as int);
            }
            r.append(self.parts[i].value.as_str());
            i = i + 1;
        }
        assert(self@.take(self.parts.len() as int) =~= self@);
        r
    }

    /// A copy of this line.
    pub fn duplicate(&self) -> (r: Line)
        ensures
            r@ == self@,
    {
        let mut parts: Vec<Part> = Vec::new();
        let mut i: usize = 0;
        while i < self.parts.len()
            invariant
                i <= self.parts.len(),
                parts@.len() == i,
                forall|j: int| 0 <= j < i ==> #[trigger] parts@[j]@ == self.parts@[j]@,
            decreases self.parts.len() - i,
        {
            parts.push(self.parts[i].duplicate());
            i = i + 1;
        }
        let r = Line { parts };
        assert(r@ =~= self@);
        r
    }
}

} // verus!
