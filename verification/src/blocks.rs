//! Marked-block merge: idempotent edits to a line-oriented profile file.
//!
//! A block is a named region delimited by a begin-marker line and an
//! end-marker line.  Applying a block replaces everything strictly
//! between the first begin marker and the first end marker after it, or
//! appends a fresh block (blank line, begin marker, content, end
//! marker) when no such pair exists.  The file is handled as its lines;
//! reading and rewriting the file is the caller's I/O.

use vstd::prelude::*;
use vstd::string::StringExecFns;

use crate::script::str_views;

verus! {

/// Index of the first line at or after `from` equal to `what`.
pub open spec fn find_line(lines: Seq<Seq<char>>, what: Seq<char>, from: int) -> Option<int>
    decreases lines.len() - from,
{
    if from < 0 || from >= lines.len() {
        None
    } else if lines[from] == what {
        Some(from)
    } else {
        find_line(lines, what, from + 1)
    }
}

proof fn lemma_find_line_hit(lines: Seq<Seq<char>>, what: Seq<char>, from: int, i: int)
    requires
        0 <= from <= i < lines.len(),
        lines[i] == what,
        forall|j: int| from <= j < i ==> lines[j] != what,
    ensures
        find_line(lines, what, from) == Some(i),
    decreases i - from,
{
    if from < i {
        lemma_find_line_hit(lines, what, from + 1, i);
    }
}

proof fn lemma_find_line_miss(lines: Seq<Seq<char>>, what: Seq<char>, from: int)
    requires
        0 <= from,
        forall|j: int| from <= j < lines.len() ==> lines[j] != what,
    ensures
        find_line(lines, what, from) is None,
    decreases lines.len() - from,
{
    if from < lines.len() {
        lemma_find_line_miss(lines, what, from + 1);
    }
}

/// What `find_line` answers means, spelled out.
proof fn lemma_find_line_spec(lines: Seq<Seq<char>>, what: Seq<char>, from: int)
    requires
        0 <= from,
    ensures
        match find_line(lines, what, from) {
            Some(i) => from <= i < lines.len() && lines[i] == what && (forall|j: int|
                from <= j < i ==> lines[j] != what),
            None => forall|j: int| from <= j < lines.len() ==> lines[j] != what,
        },
    decreases lines.len() - from,
{
    if from < lines.len() && lines[from] != what {
        lemma_find_line_spec(lines, what, from + 1);
    }
}

/// The lines of a fresh block appended at the end of the file: a blank
/// separator line, the begin marker, the content, the end marker.
pub open spec fn appended_block(
    lines: Seq<Seq<char>>,
    begin: Seq<char>,
    end: Seq<char>,
    content: Seq<Seq<char>>,
) -> Seq<Seq<char>> {
    lines + seq![Seq::<char>::empty()] + seq![begin] + content + seq![end]
}

/// The file after one application of the block: the region strictly
/// between the first begin-marker line and the first end-marker line
/// after it is replaced wholesale by the content; without such a pair
/// in that order, a fresh block is appended.
pub open spec fn merged_block(
    lines: Seq<Seq<char>>,
    begin: Seq<char>,
    end: Seq<char>,
    content: Seq<Seq<char>>,
) -> Seq<Seq<char>> {
    match find_line(lines, begin, 0) {
        Some(b) => match find_line(lines, end, b + 1) {
            Some(e) => lines.take(b + 1) + content + lines.skip(e),
            None => appended_block(lines, begin, end, content),
        },
        None => appended_block(lines, begin, end, content),
    }
}

/// A file owns its block well: either the begin marker does not occur
/// at all, or an end marker follows the first begin marker.
pub open spec fn block_well_delimited(
    lines: Seq<Seq<char>>,
    begin: Seq<char>,
    end: Seq<char>,
) -> bool {
    match find_line(lines, begin, 0) {
        Some(b) => find_line(lines, end, b + 1) is Some,
        None => true,
    }
}

/// Applying the same block twice yields the same file as applying it
/// once, for every file that owns its block well, every non-empty
/// begin marker, and every content without a line equal to the end
/// marker.
pub proof fn lemma_merge_idempotent(
    lines: Seq<Seq<char>>,
    begin: Seq<char>,
    end: Seq<char>,
    content: Seq<Seq<char>>,
)
    requires
        begin.len() > 0,
        forall|i: int| 0 <= i < content.len() ==> content[i] != end,
        block_well_delimited(lines, begin, end),
    ensures
        merged_block(merged_block(lines, begin, end, content), begin, end, content)
            == merged_block(lines, begin, end, content),
{
    lemma_find_line_spec(lines, begin, 0);
    match find_line(lines, begin, 0) {
        Some(b) => {
            lemma_find_line_spec(lines, end, b + 1);
            let e = find_line(lines, end, b + 1)->Some_0;
            let once = lines.take(b + 1) + content + lines.skip(e);
            assert(once =~= merged_block(lines, begin, end, content));
            // The first begin marker is still at b.
            assert(once[b] == lines[b]);
            assert forall|j: int| 0 <= j < b implies once[j] != begin by {
                assert(once[j] == lines[j]);
            }
            lemma_find_line_hit(once, begin, 0, b);
            // The first end marker after b closes the fresh content.
            let e2 = b + 1 + content.len();
            assert(once[e2] == lines[e]);
            assert forall|j: int| b + 1 <= j < e2 implies once[j] != end by {
                assert(once[j] == content[j - (b + 1)]);
            }
            lemma_find_line_hit(once, end, b + 1, e2);
            let twice = once.take(b + 1) + content + once.skip(e2);
            assert(once.take(b + 1) =~= lines.take(b + 1));
            assert(once.skip(e2) =~= lines.skip(e));
            assert(twice =~= once);
        },
        None => {
            let once = appended_block(lines, begin, end, content);
            assert(once =~= merged_block(lines, begin, end, content));
            let b2 = lines.len() as int + 1;
            assert(once[b2] == begin);
            assert forall|j: int| 0 <= j < b2 implies once[j] != begin by {
                if j < lines.len() {
                    assert(once[j] == lines[j]);
                } else {
                    assert(once[j] == Seq::<char>::empty());
                }
            }
            lemma_find_line_hit(once, begin, 0, b2);
            let e2 = b2 + 1 + content.len();
            assert(once[e2] == end);
            assert forall|j: int| b2 + 1 <= j < e2 implies once[j] != end by {
                assert(once[j] == content[j - (b2 + 1)]);
            }
            lemma_find_line_hit(once, end, b2 + 1, e2);
            let twice = once.take(b2 + 1) + content + once.skip(e2);
            assert(once.take(b2 + 1) =~= lines + seq![Seq::<char>::empty()] + seq![begin]);
            assert(once.skip(e2) =~= seq![end]);
            assert(twice =~= once);
        },
    }
}


/// The idempotence law at the block level: applying the block named
/// `id` twice yields the file of applying it once, for every file that
/// owns the block well and every content without a line equal to the
/// end marker.
pub proof fn lemma_apply_block_idempotent(
    lines: Seq<Seq<char>>,
    id: Seq<char>,
    content: Seq<Seq<char>>,
)
    requires
        forall|i: int| 0 <= i < content.len() ==> content[i] != end_marker_of(id),
        block_well_delimited(lines, begin_marker_of(id), end_marker_of(id)),
    ensures
        merged_block(
            merged_block(lines, begin_marker_of(id), end_marker_of(id), content),
            begin_marker_of(id),
            end_marker_of(id),
            content,
        ) == merged_block(lines, begin_marker_of(id), end_marker_of(id), content),
{
    reveal_strlit("# zws_auto begin ");
    assert(begin_marker_of(id).len() > 0);
    lemma_merge_idempotent(lines, begin_marker_of(id), end_marker_of(id), content);
}

/// The literal begin marker of the block named `id`.
pub open spec fn begin_marker_of(id: Seq<char>) -> Seq<char> {
    "# zws_auto begin "@ + id
}

/// The literal end marker of the block named `id`.
pub open spec fn end_marker_of(id: Seq<char>) -> Seq<char> {
    "# zws_auto end "@ + id
}

/// Render the begin marker of the block named `id`.
pub fn begin_marker(id: &str) -> (r: String)
    ensures
        r@ == begin_marker_of(id@),
{
    let mut s = "# zws_auto begin ".to_owned();
    s.append(id);
    s
}

/// Render the end marker of the block named `id`.
pub fn end_marker(id: &str) -> (r: String)
    ensures
        r@ == end_marker_of(id@),
{
    let mut s = "# zws_auto end ".to_owned();
    s.append(id);
    s
}

/// First line at or after `from` equal to `what`, by a forward scan.
pub fn find_marker_line(lines: &Vec<String>, what: &String, from: usize) -> (r: Option<usize>)
    ensures
        r matches Some(i) ==> find_line(str_views(lines@), what@, from as int) == Some(i as int)
            && from <= i < lines@.len(),
        r is None ==> find_line(str_views(lines@), what@, from as int) is None,
{
    let mut i = from;
    while i < lines.len()
        invariant
            from <= i,
            forall|j: int| from <= j < i ==> str_views(lines@)[j] != what@,
        decreases lines@.len() - i,
    {
        if lines[i].eq(what) {
            proof {
                assert(str_views(lines@)[i as int] == what@);
                lemma_find_line_hit(str_views(lines@), what@, from as int, i as int);
            }
            return Some(i);
        }
        proof {
            assert(str_views(lines@)[i as int] != what@);
        }
        i = i + 1;
    }
    proof {
        lemma_find_line_miss(str_views(lines@), what@, from as int);
    }
    None
}

/// Clone the lines of `src` with indices in `[lo, hi)` onto the end of `dst`.
fn push_lines(dst: &mut Vec<String>, src: &Vec<String>, lo: usize, hi: usize)
    requires
        lo <= hi <= src@.len(),
    ensures
        str_views(final(dst)@) == str_views(old(dst)@) + str_views(src@).subrange(
            lo as int,
            hi as int,
        ),
{
    let mut i = lo;
    while i < hi
        invariant
            lo <= i <= hi <= src@.len(),
            dst@.len() == old(dst)@.len() + i - lo,
            str_views(dst@) =~= str_views(old(dst)@) + str_views(src@).subrange(
                lo as int,
                i as int,
            ),
        decreases hi - i,
    {
        let ghost pre = dst@;
        dst.push(src[i].clone());
        proof {
            assert forall|j: int| 0 <= j < dst@.len() implies str_views(dst@)[j] == (str_views(
                old(dst)@,
            ) + str_views(src@).subrange(lo as int, i + 1))[j] by {
                if j < pre.len() {
                    assert(str_views(pre)[j] == (str_views(old(dst)@) + str_views(src@).subrange(
                        lo as int,
                        i as int,
                    ))[j]);
                }
            }
            assert(str_views(dst@) =~= str_views(old(dst)@) + str_views(src@).subrange(
                lo as int,
                i + 1,
            ));
        }
        i = i + 1;
    }
}

/// Apply the block named `id` with the given content lines to a file's
/// lines: replace the interior of the existing marker pair, or append a
/// fresh block at the end.
pub fn apply_block(lines: &Vec<String>, id: &str, content: &Vec<String>) -> (r: Vec<String>)
    ensures
        str_views(r@) == merged_block(
            str_views(lines@),
            begin_marker_of(id@),
            end_marker_of(id@),
            str_views(content@),
        ),
{
    let begin = begin_marker(id);
    let end = end_marker(id);
    let n = lines.len();
    let mut out: Vec<String> = Vec::new();
    let found = match find_marker_line(lines, &begin, 0) {
        Some(b) => match find_marker_line(lines, &end, b + 1) {
            Some(e) => Some((b, e)),
            None => None,
        },
        None => None,
    };
    match found {
        Some((b, e)) => {
            push_lines(&mut out, lines, 0, b + 1);
            push_lines(&mut out, content, 0, content.len());
            push_lines(&mut out, lines, e, n);
            proof {
                let lv = str_views(lines@);
                let cv = str_views(content@);
                assert(cv.subrange(0, cv.len() as int) =~= cv);
                assert(lv.subrange(0, b + 1) =~= lv.take(b + 1));
                assert(lv.subrange(e as int, n as int) =~= lv.skip(e as int));
                assert(str_views(out@) =~= lv.take(b + 1) + cv + lv.skip(e as int));
            }
        },
        None => {
            push_lines(&mut out, lines, 0, n);
            proof {
                assert(str_views(lines@).subrange(0, n as int) =~= str_views(lines@));
            }
            let ghost s0 = str_views(out@);
            out.push(String::new());
            proof {
                assert(str_views(out@) =~= s0.push(Seq::<char>::empty()));
            }
            let ghost s1 = str_views(out@);
            out.push(begin);
            proof {
                assert(str_views(out@) =~= s1.push(begin_marker_of(id@)));
            }
            push_lines(&mut out, content, 0, content.len());
            let ghost s2 = str_views(out@);
            out.push(end);
            proof {
                assert(str_views(out@) =~= s2.push(end_marker_of(id@)));
                assert(str_views(content@).subrange(0, content@.len() as int) =~= str_views(
                    content@,
                ));
                assert(str_views(out@) =~= appended_block(
                    str_views(lines@),
                    begin_marker_of(id@),
                    end_marker_of(id@),
                    str_views(content@),
                ));
            }
        },
    }
    out
}

} // verus!
