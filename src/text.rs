use vstd::prelude::*;

use crate::geometry::fits_i64;
use crate::layer::{marks, DrawOp, Mark};

verus! {

/// The explicit line-break marker.
pub const LINE_BREAK: char = '\n';

/// Splits a character sequence at every line-break marker. A sequence without
/// markers, the empty one included, is a single line.
pub open spec fn split_lines(s: Seq<char>) -> Seq<Seq<char>>
    decreases s.len(),
{
    if s.len() == 0 {
        seq![Seq::<char>::empty()]
    } else {
        let prev = split_lines(s.drop_last());
        if s.last() == LINE_BREAK {
            prev.push(Seq::<char>::empty())
        } else {
            prev.update(prev.len() - 1, prev.last().push(s.last()))
        }
    }
}

/// The number of line-break markers in `s`.
pub open spec fn count_breaks(s: Seq<char>) -> nat
    decreases s.len(),
{
    if s.len() == 0 {
        0
    } else {
        count_breaks(s.drop_last()) + if s.last() == LINE_BREAK {
            1nat
        } else {
            0nat
        }
    }
}

/// Content with `k` line-break markers splits into exactly `k + 1` lines;
/// in particular empty content is exactly one empty line.
pub proof fn lemma_split_line_count(s: Seq<char>)
    ensures
        split_lines(s).len() == count_breaks(s) + 1,
        s.len() == 0 ==> split_lines(s) == seq![Seq::<char>::empty()],
    decreases s.len(),
{
    if s.len() > 0 {
        lemma_split_line_count(s.drop_last());
    }
}

/// Relies on `String`'s `FromIterator<char>`: the string holds the given
/// characters in order.
#[verifier::external_body]
fn string_of(chars: &Vec<char>) -> (r: String)
    ensures
        r@ == chars@,
{
    chars.iter().collect()
}

/// Splits `s` at every line-break marker, keeping empty lines.
pub fn split_into_lines(s: &str) -> (r: Vec<String>)
    ensures
        r.len() == split_lines(s@).len(),
        forall|i: int| 0 <= i < r.len() ==> #[trigger] r[i]@ == split_lines(s@)[i],
{
    let mut done: Vec<Vec<char>> = Vec::new();
    let mut cur: Vec<char> = Vec::new();
    let mut chars_it = s.chars();
    let ghost mut seen: Seq<char> = Seq::empty();
    for c in it: chars_it
        invariant
            it.seq() == s@,
            seen == s@.take(it.index() as int),
            done.len() + 1 == split_lines(seen).len(),
            forall|i: int| 0 <= i < done.len() ==> #[trigger] done[i]@ == split_lines(seen)[i],
            cur@ == split_lines(seen).last(),
    {
        proof {
            lemma_split_line_count(seen);
            assert(seen.push(c).drop_last() == seen);
            seen = seen.push(c);
        }
        if c == LINE_BREAK {
            done.push(cur);
            cur = Vec::new();
        } else {
            cur.push(c);
        }
    }
    proof {
        assert(seen =~= s@);
    }
    done.push(cur);
    let mut r: Vec<String> = Vec::new();
    for k in 0..done.len()
        invariant
            r.len() == k,
            done.len() == split_lines(s@).len(),
            forall|i: int| 0 <= i < done.len() ==> #[trigger] done[i]@ == split_lines(s@)[i],
            forall|i: int| 0 <= i < k ==> #[trigger] r[i]@ == done[i]@,
    {
        r.push(string_of(&done[k]));
    }
    r
}

/// A run of text drawn with one font size and one line height.
pub struct TextNode {
    /// The characters, with explicit line-break markers.
    pub content: String,
    /// Font size, in fixed-point points.
    pub font_size: i64,
    /// Vertical advance per emitted line, in fixed-point page units.
    pub line_height: i64,
}

impl TextNode {
    /// Font size and line height are strictly positive.
    pub open spec fn valid(&self) -> bool {
        self.font_size > 0 && self.line_height > 0
    }

    /// The lines that this node emits.
    pub open spec fn lines(&self) -> Seq<Seq<char>> {
        split_lines(self.content@)
    }

    /// How far the cursor moves down while this node is drawn.
    pub open spec fn advance(&self) -> int {
        self.lines().len() * self.line_height
    }

    /// What this node draws when its first line starts at output `(x, y)`:
    /// line `i` sits `i` line heights below the first.
    pub open spec fn marks_at(&self, x: int, y: int) -> Seq<Mark> {
        Seq::new(
            self.lines().len(),
            |i: int|
                Mark::Text {
                    x,
                    y: y - i * self.line_height,
                    font_size: self.font_size as int,
                    line: self.lines()[i],
                },
        )
    }

    pub fn is_valid(&self) -> (r: bool)
        ensures
            r == self.valid(),
    {
        self.font_size > 0 && self.line_height > 0
    }
}

/// How far the cursor moves down while the nodes are drawn one after another.
pub open spec fn section_advance(nodes: Seq<TextNode>) -> int
    decreases nodes.len(),
{
    if nodes.len() == 0 {
        0
    } else {
        section_advance(nodes.drop_last()) + nodes.last().advance()
    }
}

/// What a sequence of nodes draws from a cursor that starts at output
/// `(x, y)`: each node starts where the previous one left the cursor.
pub open spec fn section_marks(nodes: Seq<TextNode>, x: int, y: int) -> Seq<Mark>
    decreases nodes.len(),
{
    if nodes.len() == 0 {
        Seq::empty()
    } else {
        section_marks(nodes.drop_last(), x, y) + nodes.last().marks_at(
            x,
            y - section_advance(nodes.drop_last()),
        )
    }
}

/// Whether `m` is a line of text that starts at horizontal position `x`.
pub open spec fn is_line_at_x(m: Mark, x: int) -> bool {
    match m {
        Mark::Text { x: lx, .. } => lx == x,
        _ => false,
    }
}

/// Text never moves sideways: every line that a sequence of nodes draws
/// starts at the horizontal position of the cursor it started from.
pub proof fn lemma_section_keeps_x(nodes: Seq<TextNode>, x: int, y: int)
    ensures
        forall|i: int|
            0 <= i < section_marks(nodes, x, y).len() ==> is_line_at_x(
                #[trigger] section_marks(nodes, x, y)[i],
                x,
            ),
    decreases nodes.len(),
{
    if nodes.len() > 0 {
        let pre = nodes.drop_last();
        lemma_section_keeps_x(pre, x, y);
        let a = section_marks(pre, x, y);
        let b = nodes.last().marks_at(x, y - section_advance(pre));
        assert(section_marks(nodes, x, y) == a + b);
        assert forall|i: int| 0 <= i < (a + b).len() implies is_line_at_x(#[trigger] (a + b)[i], x) by {
            if i >= a.len() {
                assert((a + b)[i] == b[i - a.len()]);
            } else {
                assert((a + b)[i] == a[i]);
            }
        }
    }
}

/// Drawing valid nodes only ever moves the cursor down: a longer prefix
/// advances at least as far as a shorter one.
pub proof fn lemma_advance_monotone(nodes: Seq<TextNode>, i: int, j: int)
    requires
        0 <= i <= j <= nodes.len(),
        forall|k: int| 0 <= k < nodes.len() ==> #[trigger] nodes[k].valid(),
    ensures
        0 <= section_advance(nodes.take(i)) <= section_advance(nodes.take(j)),
    decreases j,
{
    if j > 0 {
        let pre = nodes.take(j);
        assert(pre.drop_last() =~= nodes.take(j - 1));
        let n = nodes[j - 1];
        assert(n.valid());
        assert(n.advance() >= 0) by (nonlinear_arith)
            requires
                n.advance() == n.lines().len() * n.line_height,
                n.line_height > 0,
        ;
        if i < j {
            lemma_advance_monotone(nodes, i, j - 1);
        } else {
            lemma_advance_monotone(nodes, i - 1, j - 1);
        }
    }
}

/// Emits the lines of `node` from output `(x, y)`, advancing one line height
/// per line. Returns the cursor's new y, or `None` (drawing nothing) when the
/// cursor would leave the representable range.
pub fn flow_node(node: &TextNode, x: i64, y: i64, ops: &mut Vec<DrawOp>) -> (r: Option<i64>)
    requires
        node.valid(),
    ensures
        fits_i64(y - node.advance()) ==> r == Some((y - node.advance()) as i64),
        !fits_i64(y - node.advance()) ==> r is None,
        r is Some ==> marks(final(ops)@) == marks(old(ops)@) + node.marks_at(x as int, y as int),
        r is None ==> final(ops)@ == old(ops)@,
{
    let lines = split_into_lines(node.content.as_str());
    let n = lines.len();
    proof {
        let lh = node.line_height as int;
        assert(0 <= n * lh <= usize::MAX * i64::MAX) by (nonlinear_arith)
            requires
                0 <= n <= usize::MAX,
                0 < lh <= i64::MAX,
        ;
    }
    let end_wide: i128 = y as i128 - (n as i128) * (node.line_height as i128);
    if end_wide < i64::MIN as i128 {
        return None;
    }
    let end = end_wide as i64;
    let ghost old_ops = ops@;
    let mut cur: i64 = y;
    let mut k: usize = 0;
    while k < n
        invariant
            n == lines.len(),
            n == node.lines().len(),
            forall|i: int| 0 <= i < n ==> #[trigger] lines[i]@ == node.lines()[i],
            node.valid(),
            k <= n,
            end == y - n * node.line_height,
            cur == y - k * node.line_height,
            marks(ops@) == marks(old_ops) + node.marks_at(x as int, y as int).take(k as int),
        decreases n - k,
    {
        let line = lines[k].clone();
        let op = DrawOp::Text { x, y: cur, font_size: node.font_size, line };
        proof {
            let lh = node.line_height as int;
            assert((k + 1) * lh <= n * lh) by (nonlinear_arith)
                requires
                    k + 1 <= n,
                    lh > 0,
            ;
            assert((k + 1) * lh == k * lh + lh) by (nonlinear_arith);
        }
        let ghost before = ops@;
        ops.push(op);
        proof {
            assert(marks(ops@) =~= marks(before).push(op@));
            assert(node.marks_at(x as int, y as int).take(k + 1) =~= node.marks_at(
                x as int,
                y as int,
            ).take(k as int).push(op@));
        }
        cur = cur - node.line_height;
        k = k + 1;
    }
    proof {
        assert(node.marks_at(x as int, y as int).take(n as int) =~= node.marks_at(
            x as int,
            y as int,
        ));
    }
    Some(end)
}

/// Emits every node in order from output `(x, y)`. `None` when the cursor
/// would leave the representable range.
pub fn flow_section(nodes: &Vec<TextNode>, x: i64, y: i64) -> (r: Option<Vec<DrawOp>>)
    requires
        forall|k: int| 0 <= k < nodes.len() ==> #[trigger] nodes[k].valid(),
    ensures
        r is Some <==> fits_i64(y - section_advance(nodes@)),
        r is Some ==> marks(r->0@) == section_marks(nodes@, x as int, y as int),
{
    let mut ops: Vec<DrawOp> = Vec::new();
    let mut cur: i64 = y;
    let mut i: usize = 0;
    proof {
        assert(nodes@.take(0) =~= Seq::<TextNode>::empty());
        assert(marks(ops@) =~= Seq::<Mark>::empty());
    }
    while i < nodes.len()
        invariant
            forall|k: int| 0 <= k < nodes.len() ==> #[trigger] nodes[k].valid(),
            i <= nodes.len(),
            cur == y - section_advance(nodes@.take(i as int)),
            marks(ops@) == section_marks(nodes@.take(i as int), x as int, y as int),
        decreases nodes.len() - i,
    {
        let ghost pre = nodes@.take(i as int);
        let ghost next = nodes@.take(i + 1);
        proof {
            assert(next.drop_last() =~= pre);
            assert(next.last() == nodes[i as int]);
        }
        match flow_node(&nodes[i], x, cur, &mut ops) {
            Some(c) => {
                cur = c;
            },
            None => {
                proof {
                    lemma_advance_monotone(nodes@, i + 1, nodes.len() as int);
                    assert(nodes@.take(nodes.len() as int) =~= nodes@);
                }
                return None;
            },
        }
        i = i + 1;
    }
    proof {
        assert(nodes@.take(nodes.len() as int) =~= nodes@);
    }
    Some(ops)
}

} // verus!
