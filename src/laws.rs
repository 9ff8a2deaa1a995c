//! Properties that relate several operations of a document.
use vstd::prelude::*;

use crate::common::{Position, Size};
use crate::config::Config;
use crate::doc::{
    content_of, cursor_after_backspace, cursor_after_insert, has_no_break,
    lemma_split_newline_valid, scrolled, split_lines, split_newline, strip_cr,
    text_after_backspace, text_after_insert, valid_pos, valid_text, Doc,
};

verus! {

/// Characters without a line break, appended to contents, extend its last piece.
proof fn lemma_split_newline_append(s: Seq<char>, l: Seq<char>)
    requires
        has_no_break(l),
    ensures
        split_newline(s + l) == split_newline(s).update(
            split_newline(s).len() - 1,
            split_newline(s).last() + l,
        ),
    decreases l.len(),
{
    let r = split_newline(s);
    lemma_split_newline_valid(s);
    if l.len() == 0 {
        assert(s + l =~= s);
        assert(r.update(r.len() - 1, r.last() + l) =~= r);
    } else {
        let l0 = l.drop_last();
        assert(has_no_break(l0));
        lemma_split_newline_append(s, l0);
        assert((s + l).drop_last() =~= s + l0);
        assert(l[l.len() - 1] != '\n');
        assert((s + l).last() == l.last());
        let r0 = split_newline(s + l0);
        assert(r0.len() == r.len());
        assert(r0[r0.len() - 1] == r.last() + l0);
        assert(split_newline(s + l) == r0.update(r0.len() - 1, r0.last().push(l.last())));
        assert((r.last() + l0).push(l.last()) =~= r.last() + l);
        assert(r0.update(r0.len() - 1, r0.last().push(l.last())) =~= r.update(
            r.len() - 1,
            r.last() + l,
        ));
        assert(split_newline(s + l) =~= r.update(r.len() - 1, r.last() + l));
    }
}

/// The contents written for lines without line breaks split back into those lines,
/// followed by the empty piece after the last line break.
proof fn lemma_split_newline_content(t: Seq<Seq<char>>)
    requires
        forall|i: int| 0 <= i < t.len() ==> has_no_break(#[trigger] t[i]),
    ensures
        split_newline(content_of(t)) == t.push(Seq::empty()),
    decreases t.len(),
{
    if t.len() == 0 {
        assert(content_of(t) =~= Seq::<char>::empty());
        assert(t.push(Seq::empty()) =~= seq![Seq::<char>::empty()]);
    } else {
        let t0 = t.drop_last();
        assert forall|i: int| 0 <= i < t0.len() implies has_no_break(#[trigger] t0[i]) by {
            assert(t0[i] == t[i]);
        }
        lemma_split_newline_content(t0);
        let c0 = content_of(t0);
        assert(has_no_break(t[t.len() - 1]));
        lemma_split_newline_append(c0, t.last());
        let c = content_of(t);
        assert(c.drop_last() =~= c0 + t.last());
        assert(c.last() == '\n');
        assert(Seq::<char>::empty() + t.last() =~= t.last());
        assert(t0.push(Seq::empty()).update(t0.len() as int, t.last()) =~= t);
    }
}

/// Saving and reading back: the contents that a save writes for lines that hold no line
/// break and do not end in `'\r'` read back as exactly those lines, followed by the one
/// empty line after the line break that ends every saved file.
pub proof fn lemma_save_then_open(t: Seq<Seq<char>>)
    requires
        valid_text(t),
        forall|i: int| 0 <= i < t.len() ==> !(t[i].len() > 0 && #[trigger] t[i].last() == '\r'),
    ensures
        split_lines(content_of(t)) == t.push(Seq::empty()),
{
    lemma_split_newline_content(t);
    let p = t.push(Seq::<char>::empty());
    assert forall|i: int| 0 <= i < p.len() - 1 implies strip_cr(#[trigger] p[i]) == p[i] by {
        assert(p[i] == t[i]);
        if t[i].len() > 0 {
            assert(t[i].last() != '\r');
        }
    }
    assert(split_lines(content_of(t)) =~= p);
}

/// The viewport rule is stable: applied again to its own result with the same span, it
/// changes nothing.
proof fn lemma_scrolled_stable(off: int, cur: int, span: int)
    requires
        0 <= cur,
        0 <= span,
    ensures
        scrolled(scrolled(off, cur, span), cur, span)
            == scrolled(off, cur, span),
{
}

/// Rendering twice: right after a render, a second render leaves the viewport where it is
/// and draws the same rows. Left out is the one case where the first render draws fewer
/// rows than it could: it moved the viewport up to a cursor above it, and fewer lines than
/// fit were left from the old top.
pub proof fn lemma_render_twice(d: Doc, size: Size, config: Config)
    requires
        d.wf(),
        !(d.cursor_pos.row < d.offset.row && d.lines@.len() < d.offset.row + size.height
            && size.height > 0),
    ensures
        d.after_render(size, config).after_render(size, config) == d.after_render(size, config),
        d.after_render(size, config).render_rows(size, config) == d.render_rows(size, config),
{
    let d1 = d.after_render(size, config);
    lemma_scrolled_stable(d.offset.row as int, d.cursor_pos.row as int, d.rows_to_render(size) as int);
    lemma_scrolled_stable(
        d.offset.col as int,
        d.cursor_pos.col as int,
        d.content_width(size, config) as int,
    );
    assert(d1.rows_to_render(size) == d.rows_to_render(size));
    assert(d1.after_render(size, config) == d1);
    assert(d1.render_rows(size, config) =~= d.render_rows(size, config));
}

/// A line break typed at `p` and a backspace right after it give back the lines and the
/// cursor `p`. (The lines are as many as a `Vec` can hold.)
pub proof fn lemma_split_then_backspace(t: Seq<Seq<char>>, p: Position)
    requires
        valid_text(t),
        t.len() <= usize::MAX,
        valid_pos(t, p),
    ensures
        text_after_backspace(text_after_insert(t, p, '\n'), cursor_after_insert(p, '\n')) == t,
        cursor_after_backspace(text_after_insert(t, p, '\n'), cursor_after_insert(p, '\n')) == p,
{
    let r = p.row as int;
    let c = p.col as int;
    let t1 = text_after_insert(t, p, '\n');
    let line = t[r];
    let mid = t.take(r).push(line.take(c)).push(line.skip(c));
    assert(t1 == mid + t.skip(r + 1));
    assert(mid.len() == r + 2);
    assert(t1[r] == line.take(c));
    assert(t1[r + 1] == line.skip(c));
    assert(t1.take(r) =~= t.take(r));
    assert(t1.skip(r + 2) =~= t.skip(r + 1));
    assert(line.take(c) + line.skip(c) =~= line);
    assert(t.take(r).push(line) + t.skip(r + 1) =~= t);
    let q = cursor_after_insert(p, '\n');
    assert(q.row == r + 1 && q.col == 0);
    assert(text_after_backspace(t1, q) == t1.take(r).push(t1[r] + t1[r + 1]) + t1.skip(r + 2));
}

/// A cursor below the viewport: a render scrolls down just far enough that the cursor's
/// line is the last one shown, `height` lines down from the top. For a viewport with no
/// rows at all the top is the cursor's line instead.
pub proof fn lemma_scroll_down_minimal(d: Doc, size: Size, config: Config)
    requires
        d.wf(),
        size.height > 0,
        d.cursor_pos.row > d.offset.row + size.height - 1,
    ensures
        d.after_render(size, config).offset.row == d.cursor_pos.row - size.height + 1,
{
}

} // verus!
