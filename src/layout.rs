use vstd::prelude::*;
use crate::style::{
    Line, Part, PartView, parts_text, parts_len, copy_styles, lemma_parts_text_concat,
    lemma_parts_text_take_next,
};

verus! {

/// The views of a sequence of parts.
pub open spec fn part_views(v: Seq<Part>) -> Seq<PartView> {
    v.map_values(|p: Part| p@)
}

/// The views of a sequence of lines.
pub open spec fn line_views(v: Seq<Line>) -> Seq<Seq<PartView>> {
    v.map_values(|l: Line| l@)
}

/// The first `k` characters of `p`, with its styles.
pub open spec fn part_prefix(p: PartView, k: int) -> PartView {
    PartView { text: p.text.take(k), styles: p.styles }
}

/// The characters of `p` from index `k` on, with its styles.
pub open spec fn part_suffix(p: PartView, k: int) -> PartView {
    PartView { text: p.text.skip(k), styles: p.styles }
}

/// Lays the parts of one line into a row with `room` columns left. Parts are
/// taken whole while they fit; the first part that does not is split where
/// the room ends. The result is what the row shows and what is carried to the
/// next row: the rest of the split part followed by the parts after it.
pub open spec fn fit(parts: Seq<PartView>, room: int) -> (Seq<PartView>, Seq<PartView>)
    decreases parts.len(),
{
    if parts.len() == 0 {
        (Seq::empty(), Seq::empty())
    } else if parts[0].text.len() > room {
        (seq![part_prefix(parts[0], room)], seq![part_suffix(parts[0], room)] + parts.drop_first())
    } else {
        let next = fit(parts.drop_first(), room - parts[0].text.len());
        (seq![parts[0]] + next.0, next.1)
    }
}

/// The rows that `lines` wrap into at `width` columns when `carry` was left
/// over from the row before: each row is the carried parts followed by what
/// of its own line fits; what is left over after the last line makes one
/// more row.
pub open spec fn wrap_from(lines: Seq<Seq<PartView>>, width: int, carry: Seq<PartView>) -> Seq<
    Seq<PartView>,
>
    decreases lines.len(),
{
    if lines.len() == 0 {
        if carry.len() == 0 {
            Seq::empty()
        } else {
            seq![carry]
        }
    } else {
        let f = fit(lines[0], width);
        seq![carry + f.0] + wrap_from(lines.drop_first(), width, f.1)
    }
}

/// The rows that `lines` wrap into at `width` columns.
pub open spec fn wrap_spec(lines: Seq<Seq<PartView>>, width: int) -> Seq<Seq<PartView>> {
    wrap_from(lines, width, Seq::empty())
}

/// The plain text of a sequence of rows, row after row.
pub open spec fn rows_text(rows: Seq<Seq<PartView>>) -> Seq<char>
    decreases rows.len(),
{
    if rows.len() == 0 {
        Seq::empty()
    } else {
        parts_text(rows[0]) + rows_text(rows.drop_first())
    }
}

/// Splitting a part at `k` keeps every character: prefix then suffix.
pub proof fn lemma_split_keeps_text(p: PartView, k: int)
    requires
        0 <= k <= p.text.len(),
    ensures
        part_prefix(p, k).text + part_suffix(p, k).text == p.text,
{
    assert(p.text.take(k) + p.text.skip(k) =~= p.text);
}

/// What a row shows and what it carries hold the line's text, in order.
pub proof fn lemma_fit_keeps_text(parts: Seq<PartView>, room: int)
    requires
        room >= 0,
    ensures
        parts_text(fit(parts, room).0) + parts_text(fit(parts, room).1) == parts_text(parts),
    decreases parts.len(),
{
    let e = Seq::<PartView>::empty();
    assert(parts_text(e) == Seq::<char>::empty());
    if parts.len() == 0 {
        assert(Seq::<char>::empty() + Seq::<char>::empty() =~= Seq::<char>::empty());
    } else {
        let p = parts[0];
        assert(parts =~= seq![p] + parts.drop_first());
        lemma_parts_text_concat(seq![p], parts.drop_first());
        assert(seq![p].drop_last() =~= e);
        assert(parts_text(seq![p]) =~= p.text);
        if p.text.len() > room {
            let a = part_prefix(p, room);
            let b = part_suffix(p, room);
            lemma_split_keeps_text(p, room);
            assert(seq![a].drop_last() =~= e);
            assert(parts_text(seq![a]) =~= a.text);
            lemma_parts_text_concat(seq![b], parts.drop_first());
            assert(seq![b].drop_last() =~= e);
            assert(parts_text(seq![b]) =~= b.text);
            assert(a.text + (b.text + parts_text(parts.drop_first())) =~= (a.text + b.text)
                + parts_text(parts.drop_first()));
        } else {
            let next = fit(parts.drop_first(), room - p.text.len());
            lemma_fit_keeps_text(parts.drop_first(), room - p.text.len());
            lemma_parts_text_concat(seq![p], next.0);
            assert(p.text + parts_text(next.0) + parts_text(next.1) =~= p.text + (parts_text(
                next.0,
            ) + parts_text(next.1)));
        }
    }
}

/// Wrapping keeps every character: the rows hold the carried text followed
/// by the text of the lines, in order.
pub proof fn lemma_wrap_from_keeps_text(lines: Seq<Seq<PartView>>, width: int, carry: Seq<PartView>)
    requires
        width >= 0,
    ensures
        rows_text(wrap_from(lines, width, carry)) == parts_text(carry) + rows_text(lines),
    decreases lines.len(),
{
    let ec = Seq::<char>::empty();
    if lines.len() == 0 {
        assert(rows_text(lines) == ec);
        assert(rows_text(Seq::<Seq<PartView>>::empty()) == ec);
        if carry.len() == 0 {
            assert(parts_text(carry) == ec);
            assert(ec + ec =~= ec);
        } else {
            let rows = seq![carry];
            assert(rows.drop_first() =~= Seq::<Seq<PartView>>::empty());
            assert(parts_text(carry) + ec =~= parts_text(carry));
        }
    } else {
        let f = fit(lines[0], width);
        let rest = wrap_from(lines.drop_first(), width, f.1);
        let rows = seq![carry + f.0] + rest;
        assert(rows[0] == carry + f.0);
        assert(rows.drop_first() =~= rest);
        lemma_wrap_from_keeps_text(lines.drop_first(), width, f.1);
        lemma_parts_text_concat(carry, f.0);
        lemma_fit_keeps_text(lines[0], width);
        assert(parts_text(carry) + parts_text(f.0) + (parts_text(f.1) + rows_text(
            lines.drop_first(),
        )) =~= parts_text(carry) + (parts_text(f.0) + parts_text(f.1) + rows_text(
            lines.drop_first(),
        )));
    }
}

/// Wrapping lines into rows neither drops nor adds characters: the text of
/// the rows, row after row, is the text of the lines, line after line.
pub proof fn lemma_wrap_keeps_text(lines: Seq<Seq<PartView>>, width: int)
    requires
        width >= 0,
    ensures
        rows_text(wrap_spec(lines, width)) == rows_text(lines),
{
    lemma_wrap_from_keeps_text(lines, width, Seq::empty());
    assert(parts_text(Seq::<PartView>::empty()) == Seq::<char>::empty());
    assert(Seq::<char>::empty() + rows_text(lines) =~= rows_text(lines));
}

/// A single part longer than the width wraps into two rows: the first holds
/// its first `width` characters, the second the rest, and both keep the
/// part's styles; the two texts joined are the part's text.
pub proof fn lemma_wrap_single_part(p: PartView, width: int)
    requires
        0 <= width < p.text.len(),
    ensures
        wrap_spec(seq![seq![p]], width).len() == 2,
        wrap_spec(seq![seq![p]], width)[0] == seq![part_prefix(p, width)],
        wrap_spec(seq![seq![p]], width)[1] == seq![part_suffix(p, width)],
        part_prefix(p, width).text + part_suffix(p, width).text == p.text,
        part_prefix(p, width).styles == p.styles,
        part_suffix(p, width).styles == p.styles,
{
    let lines = seq![seq![p]];
    let e = Seq::<PartView>::empty();
    let f = fit(seq![p], width);
    assert(seq![p].drop_first() =~= e);
    assert(f.0 == seq![part_prefix(p, width)]);
    assert(f.1 =~= seq![part_suffix(p, width)]);
    assert(lines.drop_first() =~= Seq::<Seq<PartView>>::empty());
    let tail = wrap_from(lines.drop_first(), width, f.1);
    assert(tail == seq![f.1]);
    assert(e + f.0 =~= f.0);
    lemma_split_keeps_text(p, width);
}

/// Parts whose text fits in the room are shown whole and nothing is carried.
pub proof fn lemma_fit_whole(parts: Seq<PartView>, room: int)
    requires
        parts_len(parts) <= room,
    ensures
        fit(parts, room) == (parts, Seq::<PartView>::empty()),
    decreases parts.len(),
{
    if parts.len() > 0 {
        let p = parts[0];
        let rest = parts.drop_first();
        assert(parts =~= seq![p] + rest);
        lemma_parts_text_concat(seq![p], rest);
        assert(seq![p].drop_last() =~= Seq::<PartView>::empty());
        assert(parts_text(Seq::<PartView>::empty()) == Seq::<char>::empty());
        assert(parts_text(seq![p]) =~= p.text);
        lemma_fit_whole(rest, room - p.text.len());
        assert(seq![p] + rest =~= parts);
    }
}

/// Lines that each fit in the width wrap into themselves, one row each.
pub proof fn lemma_wrap_fitting_lines(lines: Seq<Seq<PartView>>, width: int)
    requires
        forall|i: int| 0 <= i < lines.len() ==> parts_len(#[trigger] lines[i]) <= width,
    ensures
        wrap_spec(lines, width) == lines,
    decreases lines.len(),
{
    if lines.len() > 0 {
        lemma_fit_whole(lines[0], width);
        assert forall|i: int| 0 <= i < lines.drop_first().len() implies parts_len(
            #[trigger] lines.drop_first()[i],
        ) <= width by {
            assert(parts_len(lines[i + 1]) <= width);
        }
        lemma_wrap_fitting_lines(lines.drop_first(), width);
        assert(Seq::<PartView>::empty() + lines[0] =~= lines[0]);
        assert(seq![lines[0]] + lines.drop_first() =~= lines);
    }
}

/// The number of characters of a part.
pub fn part_len(p: &Part) -> (r: usize)
    ensures
        r == p@.text.len(),
{
    p.value.as_str().unicode_len()
}

/// The part `p` split after `k` characters, both halves with its styles.
pub fn split_part(p: &Part, k: usize) -> (r: (Part, Part))
    requires
        k <= p@.text.len(),
    ensures
        r.0@ == part_prefix(p@, k as int),
        r.1@ == part_suffix(p@, k as int),
{
    let n = part_len(p);
    let s = p.value.as_str();
    let first = String::from_str(s.substring_char(0, k));
    let second = String::from_str(s.substring_char(k, n));
    assert(p@.text.subrange(0, k as int) =~= p@.text.take(k as int));
    assert(p@.text.subrange(k as int, n as int) =~= p@.text.skip(k as int));
    (
        Part { value: first, styles: copy_styles(&p.styles) },
        Part { value: second, styles: copy_styles(&p.styles) },
    )
}

/// Lays the parts of one line into a row with `room` columns: the parts the
/// row shows and the parts carried to the next row, as `fit` says.
pub fn fit_parts(parts: &Vec<Part>, room: usize) -> (r: (Vec<Part>, Vec<Part>))
    ensures
        part_views(r.0@) == fit(part_views(parts@), room as int).0,
        part_views(r.1@) == fit(part_views(parts@), room as int).1,
{
    let ghost pv = part_views(parts@);
    let mut taken: Vec<Part> = Vec::new();
    let mut left: usize = room;
    let mut i: usize = 0;
    assert(pv.skip(0) =~= pv);
    assert(part_views(taken@) =~= Seq::<PartView>::empty());
    assert(Seq::<PartView>::empty() + fit(pv, room as int).0 =~= fit(pv, room as int).0);
    while i < parts.len()
        invariant
            i <= parts.len(),
            pv == part_views(parts@),
            fit(pv, room as int).0 == part_views(taken@) + fit(pv.skip(i as int), left as int).0,
            fit(pv, room as int).1 == fit(pv.skip(i as int), left as int).1,
        decreases parts.len() - i,
    {
        let ghost rest = pv.skip(i as int);
        assert(rest[0] == parts@[i as int]@);
        assert(rest.drop_first() =~= pv.skip(i + 1));
        let len = part_len(&parts[i]);
        if len > left {
            let (a, b) = split_part(&parts[i], left);
            let ghost old_taken = part_views(taken@);
            taken.push(a);
            assert(part_views(taken@) =~= old_taken + seq![a@]);
            let mut carried: Vec<Part> = Vec::new();
            carried.push(b);
            let mut j: usize = i + 1;
            while j < parts.len()
                invariant
                    i < j <= parts.len(),
                    pv == part_views(parts@),
                    part_views(carried@) == seq![b@] + pv.subrange(i + 1, j as int),
                decreases parts.len() - j,
            {
                let ghost before = part_views(carried@);
                carried.push(parts[j].duplicate());
                assert(part_views(carried@) =~= before + seq![pv[j as int]]);
                assert(pv.subrange(i + 1, j + 1) =~= pv.subrange(i + 1, j as int) + seq![pv[j as int]]);
                assert(part_views(carried@) =~= seq![b@] + pv.subrange(i + 1, j + 1));
                j = j + 1;
            }
            assert(pv.subrange(i + 1, parts.len() as int) =~= pv.skip(i + 1));
            return (taken, carried);
        }
        let ghost old_taken = part_views(taken@);
        taken.push(parts[i].duplicate());
        assert(part_views(taken@) =~= old_taken + seq![pv[i as int]]);
        assert(seq![rest[0]] + fit(rest.drop_first(), left - len).0 == fit(rest, left as int).0);
        assert(old_taken + (seq![pv[i as int]] + fit(pv.skip(i + 1), left - len).0) =~= (old_taken
            + seq![pv[i as int]]) + fit(pv.skip(i + 1), left - len).0);
        left = left - len;
        i = i + 1;
    }
    assert(pv.skip(i as int) =~= Seq::<PartView>::empty());
    assert(part_views(taken@) + Seq::<PartView>::empty() =~= part_views(taken@));
    (taken, Vec::new())
}

/// The views of two part lists joined are the two lists of views joined.
pub proof fn lemma_part_views_concat(a: Seq<Part>, b: Seq<Part>)
    ensures
        part_views(a + b) == part_views(a) + part_views(b),
{
    assert(part_views(a + b) =~= part_views(a) + part_views(b));
}

/// The rows that `lines` wrap into at `width` columns, as `wrap_spec` says.
pub fn wrap(lines: &Vec<Line>, width: usize) -> (r: Vec<Line>)
    ensures
        line_views(r@) == wrap_spec(line_views(lines@), width as int),
{
    let ghost lv = line_views(lines@);
    let mut rows: Vec<Line> = Vec::new();
    let mut carry: Vec<Part> = Vec::new();
    let mut i: usize = 0;
    assert(lv.skip(0) =~= lv);
    assert(line_views(rows@) + wrap_from(lv, width as int, part_views(carry@)) =~= wrap_from(
        lv,
        width as int,
        part_views(carry@),
    ));
    assert(part_views(carry@) =~= Seq::<PartView>::empty());
    while i < lines.len()
        invariant
            i <= lines.len(),
            lv == line_views(lines@),
            wrap_spec(lv, width as int) == line_views(rows@) + wrap_from(
                lv.skip(i as int),
                width as int,
                part_views(carry@),
            ),
        decreases lines.len() - i,
    {
        let ghost rest = lv.skip(i as int);
        assert(rest[0] == lines@[i as int]@);
        assert(rest.drop_first() =~= lv.skip(i + 1));
        assert(lines@[i as int]@ == part_views(lines@[i as int].parts@));
        let (mut taken, next) = fit_parts(&lines[i].parts, width);
        let ghost c = carry@;
        let ghost t = taken@;
        carry.append(&mut taken);
        proof {
            lemma_part_views_concat(c, t);
        }
        let ghost old_rows = line_views(rows@);
        let row = Line::new(carry);
        rows.push(row);
        assert(line_views(rows@) =~= old_rows + seq![row@]);
        assert(old_rows + (seq![row@] + wrap_from(lv.skip(i + 1), width as int, part_views(next@)))
            =~= (old_rows + seq![row@]) + wrap_from(lv.skip(i + 1), width as int, part_views(next@)));
        carry = next;
        i = i + 1;
    }
    assert(lv.skip(i as int) =~= Seq::<Seq<PartView>>::empty());
    if carry.len() > 0 {
        let ghost old_rows = line_views(rows@);
        let row = Line::new(carry);
        rows.push(row);
        assert(line_views(rows@) =~= old_rows + seq![row@]);
    } else {
        assert(line_views(rows@) + Seq::<Seq<PartView>>::empty() =~= line_views(rows@));
    }
    rows
}

/// The row at index `r` of `rows`, or an empty row past their end.
pub open spec fn row_at(rows: Seq<Seq<PartView>>, r: int) -> Seq<PartView> {
    if 0 <= r < rows.len() {
        rows[r]
    } else {
        Seq::empty()
    }
}

/// How many highlighted blank columns follow a row whose text is `len`
/// characters long in a viewport `width` columns wide: on a highlighted row,
/// enough to reach the full width; on any other row, none.
pub open spec fn fill_width(highlighted: bool, len: nat, width: nat) -> nat {
    if highlighted && len < width {
        (width - len) as nat
    } else {
        0
    }
}

/// On the highlighted row the text and the fill together cover at least the
/// full width, and exactly the full width when the text is shorter.
pub proof fn lemma_highlight_spans_width(len: nat, width: nat)
    ensures
        len + fill_width(true, len, width) >= width,
        len < width ==> len + fill_width(true, len, width) == width,
{
}

/// One row of a rendered frame: what it shows, whether it is the cursor row
/// drawn highlighted, and how many highlighted blank columns follow its text.
#[derive(Clone, Debug)]
pub struct Row {
    pub line: Line,
    pub highlighted: bool,
    pub fill: usize,
}

/// Row `r` of the frame a viewport `width` columns wide shows of `lines`:
/// the `r`-th wrapped row (empty past the last), highlighted when it is the
/// cursor's row and the cursor is shown, with blank fill up to the full width
/// when highlighted.
pub open spec fn frame_row_ok(
    row: Row,
    lines: Seq<Seq<PartView>>,
    r: int,
    width: nat,
    cursor_row: int,
    cursor_shown: bool,
) -> bool {
    &&& row.line@ == row_at(wrap_spec(lines, width as int), r)
    &&& row.highlighted == (cursor_shown && r == cursor_row)
    &&& row.fill == fill_width(row.highlighted, parts_len(row.line@), width)
}

/// The length of the text of `line`, or `cap` if that is less.
pub fn capped_len(line: &Line, cap: usize) -> (r: usize)
    ensures
        r == if parts_len(line@) < cap { parts_len(line@) } else { cap as nat },
{
    let mut acc: usize = 0;
    let mut i: usize = 0;
    while i < line.parts.len()
        invariant
            i <= line.parts.len(),
            acc == if parts_text(line@.take(i as int)).len() < cap {
                parts_text(line@.take(i as int)).len()
            } else {
                cap as nat
            },
        decreases line.parts.len() - i,
    {
        proof {
            lemma_parts_text_take_next(line@, i as int);
        }
        let n = part_len(&line.parts[i]);
        if acc < cap {
            if n >= cap - acc {
                acc = cap;
            } else {
                acc = acc + n;
            }
        }
        i = i + 1;
    }
    assert(line@.take(line.parts.len() as int) =~= line@);
    acc
}

/// The frame a viewport `height` rows by `width` columns shows of `lines`,
/// with the cursor at row `cursor_row`, highlighted when `cursor_shown`.
pub fn frame(lines: &Vec<Line>, height: usize, width: usize, cursor_row: i32, cursor_shown: bool) -> (r:
    Vec<Row>)
    ensures
        r@.len() == height,
        forall|i: int|
            0 <= i < height ==> frame_row_ok(
                #[trigger] r@[i],
                line_views(lines@),
                i,
                width as nat,
                cursor_row as int,
                cursor_shown,
            ),
{
    let rows = wrap(lines, width);
    let ghost wrapped = wrap_spec(line_views(lines@), width as int);
    let mut out: Vec<Row> = Vec::new();
    let mut i: usize = 0;
    while i < height
        invariant
            i <= height,
            line_views(rows@) == wrapped,
            wrapped == wrap_spec(line_views(lines@), width as int),
            out@.len() == i,
            forall|j: int|
                0 <= j < i ==> frame_row_ok(
                    #[trigger] out@[j],
                    line_views(lines@),
                    j,
                    width as nat,
                    cursor_row as int,
                    cursor_shown,
                ),
        decreases height - i,
    {
        let line = if i < rows.len() {
            assert(wrapped[i as int] == rows@[i as int]@);
            rows[i].duplicate()
        } else {
            let l = Line::new(Vec::new());
            assert(l@ =~= Seq::<PartView>::empty());
            l
        };
        let highlighted = cursor_shown && i <= i32::MAX as usize && i as i32 == cursor_row;
        let len = capped_len(&line, width);
        let fill = if highlighted {
            width - len
        } else {
            0
        };
        let row = Row { line, highlighted, fill };
        assert(frame_row_ok(row, line_views(lines@), i as int, width as nat, cursor_row as int, cursor_shown));
        out.push(row);
        i = i + 1;
    }
    out
}

} // verus!
