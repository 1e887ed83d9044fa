//! The line-wrap engine: breaks each logical line into display segments.
//! The first segment of a line may use the full content width; every
//! continuation segment uses the width left after the indent. The break
//! search scans backward from the width limit for a space; failing that it
//! hard-breaks, and it always advances at least one character so a tick of
//! rendering makes progress even at width zero or one.

use vstd::prelude::*;

use crate::style::StyledChar;

verus! {

/// The largest index in `[start, end)` holding a space, or -1 when there
/// is none.
pub open spec fn last_space_in(line: Seq<StyledChar>, start: int, end: int) -> int
    decreases end - start,
{
    if end <= start {
        -1
    } else if line[end - 1].ch == ' ' {
        end - 1
    } else {
        last_space_in(line, start, end - 1)
    }
}

pub proof fn lemma_last_space_in(line: Seq<StyledChar>, start: int, end: int)
    requires
        0 <= start <= end,
    ensures
        last_space_in(line, start, end) == -1 ==> forall|j: int|
            start <= j && j < end ==> (#[trigger] line[j]).ch != ' ',
        last_space_in(line, start, end) != -1 ==> {
            let sp = last_space_in(line, start, end);
            &&& start <= sp < end
            &&& line[sp].ch == ' '
            &&& forall|j: int| sp < j && j < end ==> (#[trigger] line[j]).ch != ' '
        },
    decreases end - start,
{
    if end > start {
        if line[end - 1].ch == ' ' {
            assert(last_space_in(line, start, end) == end - 1);
        } else {
            lemma_last_space_in(line, start, end - 1);
            assert(last_space_in(line, start, end) == last_space_in(line, start, end - 1));
            if last_space_in(line, start, end) == -1 {
                assert forall|j: int| start <= j && j < end implies (#[trigger] line[j]).ch != ' ' by {
                    if j < end - 1 {
                        assert(line[j].ch != ' ');
                    } else {
                        assert(j == end - 1);
                    }
                }
            }
        }
    }
}

/// Where a segment beginning at `start` with width `limit` ends, by the
/// break rule: the whole rest of the line when it fits; otherwise just
/// after the last space inside the window; otherwise a hard break at the
/// window edge, advancing at least one character.
pub open spec fn find_break_spec(line: Seq<StyledChar>, start: int, limit: int) -> int {
    if start + limit >= line.len() {
        line.len() as int
    } else {
        let end = start + limit;
        let sp = last_space_in(line, start, end);
        if sp >= 0 {
            sp + 1
        } else if start == end {
            start + 1
        } else {
            end
        }
    }
}

pub proof fn lemma_find_break_bounds(line: Seq<StyledChar>, start: int, limit: int)
    requires
        0 <= start < line.len(),
        limit >= 0,
    ensures
        start < find_break_spec(line, start, limit) <= line.len(),
{
    if start + limit < line.len() {
        lemma_last_space_in(line, start, start + limit);
    }
}

/// The same break point, with the guards that make progress and stay in
/// range written into the definition itself, so that the segment
/// recursion below visibly terminates. Where `0 <= start < line.len()`
/// and `limit >= 0` it coincides with `find_break_spec`.
pub open spec fn seg_end(line: Seq<StyledChar>, start: int, limit: int) -> int {
    let fb = find_break_spec(line, start, limit);
    if fb <= start {
        start + 1
    } else if fb > line.len() {
        line.len() as int
    } else {
        fb
    }
}

pub proof fn lemma_seg_end_is_find_break(line: Seq<StyledChar>, start: int, limit: int)
    requires
        0 <= start < line.len(),
        limit >= 0,
    ensures
        seg_end(line, start, limit) == find_break_spec(line, start, limit),
        start < seg_end(line, start, limit) <= line.len(),
{
    lemma_find_break_bounds(line, start, limit);
}

/// The display segments of `line` from position `pos` on, each of width
/// at most `rest_w` by the break rule.
pub open spec fn segments_from(line: Seq<StyledChar>, pos: int, rest_w: int) -> Seq<(int, int)>
    decreases line.len() - pos,
        when 0 <= pos
{
    if pos >= line.len() {
        Seq::empty()
    } else {
        seq![(pos, seg_end(line, pos, rest_w))] + segments_from(
            line,
            seg_end(line, pos, rest_w),
            rest_w,
        )
    }
}

/// All display segments of one logical line: the first of width at most
/// `first_w`, continuations of width at most `rest_w`. An empty line
/// yields exactly one zero-width segment, so it still occupies a row.
pub open spec fn line_segments(line: Seq<StyledChar>, first_w: int, rest_w: int) -> Seq<
    (int, int),
> {
    if line.len() == 0 {
        seq![(0int, 0int)]
    } else {
        seq![(0int, seg_end(line, 0, first_w))] + segments_from(
            line,
            seg_end(line, 0, first_w),
            rest_w,
        )
    }
}

/// Structural facts about a line's segments: they chain from 0 to the
/// line's length, each advances, and every break point is the one the
/// break rule names.
pub proof fn lemma_segments_from_props(line: Seq<StyledChar>, pos: int, rest_w: int)
    requires
        0 <= pos,
        rest_w >= 0,
    ensures
        ({
            let segs = segments_from(line, pos, rest_w);
            &&& (pos >= line.len() ==> segs.len() == 0)
            &&& (pos < line.len() ==> segs.len() >= 1 && segs[0].0 == pos && segs.last().1
                == line.len())
            &&& forall|i: int|
                0 <= i < segs.len() ==> (#[trigger] segs[i]).0 < segs[i].1 <= line.len()
                    && segs[i].1 == find_break_spec(line, segs[i].0, rest_w) && 0 <= segs[i].0
            &&& forall|i: int| 1 <= i < segs.len() ==> (#[trigger] segs[i]).0 == segs[i - 1].1
            &&& forall|i: int| 0 <= i < segs.len() - 1 ==> (#[trigger] segs[i]).1 < line.len()
        }),
    decreases line.len() - pos,
{
    if pos < line.len() {
        lemma_seg_end_is_find_break(line, pos, rest_w);
        lemma_segments_from_props(line, seg_end(line, pos, rest_w), rest_w);
    }
}

/// The same facts for the full segment list of a line, first segment
/// included.
pub proof fn lemma_line_segments_props(line: Seq<StyledChar>, first_w: int, rest_w: int)
    requires
        first_w >= 0,
        rest_w >= 0,
    ensures
        ({
            let segs = line_segments(line, first_w, rest_w);
            &&& segs.len() >= 1
            &&& segs[0].0 == 0
            &&& segs.last().1 == line.len()
            &&& forall|i: int|
                0 <= i < segs.len() ==> 0 <= (#[trigger] segs[i]).0 <= segs[i].1 <= line.len()
            &&& forall|i: int| 1 <= i < segs.len() ==> (#[trigger] segs[i]).0 == segs[i - 1].1
            &&& (line.len() > 0 ==> forall|i: int|
                0 <= i < segs.len() ==> (#[trigger] segs[i]).0 < segs[i].1)
            &&& (line.len() > 0 ==> segs[0].1 == find_break_spec(line, 0, first_w))
            &&& (line.len() > 0 ==> forall|i: int|
                1 <= i < segs.len() ==> (#[trigger] segs[i]).1 == find_break_spec(
                    line,
                    segs[i].0,
                    rest_w,
                ))
        }),
{
    if line.len() > 0 {
        lemma_seg_end_is_find_break(line, 0, first_w);
        lemma_segments_from_props(line, seg_end(line, 0, first_w), rest_w);
    }
}

/// The characters the segments pick out of the line, concatenated in
/// order.
pub open spec fn concat_ranges(line: Seq<StyledChar>, segs: Seq<(int, int)>) -> Seq<StyledChar>
    decreases segs.len(),
{
    if segs.len() == 0 {
        Seq::empty()
    } else {
        concat_ranges(line, segs.drop_last()) + line.subrange(segs.last().0, segs.last().1)
    }
}

proof fn lemma_concat_ranges_chain(line: Seq<StyledChar>, segs: Seq<(int, int)>)
    requires
        forall|i: int| 0 <= i < segs.len() ==> 0 <= (#[trigger] segs[i]).0 <= segs[i].1
            <= line.len(),
        forall|i: int| 1 <= i < segs.len() ==> (#[trigger] segs[i]).0 == segs[i - 1].1,
        segs.len() >= 1,
        segs[0].0 == 0,
    ensures
        concat_ranges(line, segs) =~= line.subrange(0, segs.last().1),
    decreases segs.len(),
{
    if segs.len() == 1 {
        assert(concat_ranges(line, segs.drop_last()) =~= Seq::empty());
    } else {
        let pre = segs.drop_last();
        lemma_concat_ranges_chain(line, pre);
        assert(concat_ranges(line, segs) =~= line.subrange(0, pre.last().1) + line.subrange(
            segs.last().0,
            segs.last().1,
        ));
    }
}

/// Wrap round-trip: concatenating the character ranges of all segments of
/// one logical line, in order, reproduces that line exactly, whatever the
/// widths.
pub proof fn lemma_wrap_round_trip(line: Seq<StyledChar>, first_w: int, rest_w: int)
    requires
        first_w >= 0,
        rest_w >= 0,
    ensures
        concat_ranges(line, line_segments(line, first_w, rest_w)) =~= line,
{
    lemma_line_segments_props(line, first_w, rest_w);
    let segs = line_segments(line, first_w, rest_w);
    lemma_concat_ranges_chain(line, segs);
    assert(line.subrange(0, line.len() as int) =~= line);
}

/// One break-point search step of the wrap engine, exactly as the break
/// rule states it.
pub fn find_break(line: &Vec<StyledChar>, start: usize, limit: usize) -> (r: usize)
    requires
        start < line@.len(),
    ensures
        r as int == find_break_spec(line@, start as int, limit as int),
        start < r <= line@.len(),
{
    proof {
        lemma_find_break_bounds(line@, start as int, limit as int);
    }
    if limit >= line.len() - start {
        return line.len();
    }
    let end = start + limit;
    let mut i = end;
    while i > start
        invariant
            start <= i <= end,
            end == start + limit,
            end < line@.len(),
            last_space_in(line@, start as int, end as int) == last_space_in(
                line@,
                start as int,
                i as int,
            ),
        decreases i,
    {
        i = i - 1;
        if line[i].ch == ' ' {
            proof {
                assert(last_space_in(line@, start as int, i + 1) == i);
            }
            return i + 1;
        }
        proof {
            assert(last_space_in(line@, start as int, i + 1) == last_space_in(
                line@,
                start as int,
                i as int,
            ));
        }
    }
    proof {
        assert(last_space_in(line@, start as int, start as int) == -1);
    }
    if start == end {
        start + 1
    } else {
        end
    }
}

/// The pairs of a built segment vector, as mathematical integers.
pub open spec fn pairs_view(segs: Seq<(usize, usize)>) -> Seq<(int, int)> {
    segs.map_values(|p: (usize, usize)| (p.0 as int, p.1 as int))
}

/// Computes all display segments of one logical line.
pub fn wrap_line(line: &Vec<StyledChar>, first_w: usize, rest_w: usize) -> (segs: Vec<
    (usize, usize),
>)
    ensures
        pairs_view(segs@) == line_segments(line@, first_w as int, rest_w as int),
{
    let mut segs: Vec<(usize, usize)> = Vec::new();
    if line.len() == 0 {
        segs.push((0, 0));
        proof {
            assert(pairs_view(segs@) =~= line_segments(line@, first_w as int, rest_w as int));
        }
        return segs;
    }
    let first_end = find_break(line, 0, first_w);
    segs.push((0, first_end));
    proof {
        lemma_seg_end_is_find_break(line@, 0, first_w as int);
    }
    let mut pos = first_end;
    while pos < line.len()
        invariant
            0 < pos <= line@.len(),
            line@.len() > 0,
            line_segments(line@, first_w as int, rest_w as int) =~= pairs_view(segs@)
                + segments_from(line@, pos as int, rest_w as int),
        decreases line@.len() - pos,
    {
        let e = find_break(line, pos, rest_w);
        proof {
            lemma_seg_end_is_find_break(line@, pos as int, rest_w as int);
            assert(segments_from(line@, pos as int, rest_w as int) =~= seq![
                (pos as int, e as int),
            ] + segments_from(line@, e as int, rest_w as int));
        }
        let ghost old_segs = segs@;
        segs.push((pos, e));
        proof {
            assert(pairs_view(segs@) =~= pairs_view(old_segs).push((pos as int, e as int)));
            assert(pairs_view(old_segs).push((pos as int, e as int)) + segments_from(
                line@,
                e as int,
                rest_w as int,
            ) =~= pairs_view(old_segs) + (seq![(pos as int, e as int)] + segments_from(
                line@,
                e as int,
                rest_w as int,
            )));
        }
        pos = e;
    }
    proof {
        assert(segments_from(line@, pos as int, rest_w as int) =~= Seq::empty());
        assert(pairs_view(segs@) + Seq::<(int, int)>::empty() =~= pairs_view(segs@));
        assert(pairs_view(segs@) =~= line_segments(line@, first_w as int, rest_w as int));
    }
    segs
}

} // verus!
