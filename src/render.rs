use vstd::prelude::*;

use crate::grid::{GridModel, LuminanceGrid};
use crate::ramp::{CharArr, default_ramp, default_ramp_spec, ramp_glyph};

verus! {

/// Relies on `String::with_capacity`: the new string is empty. It panics only
/// when the capacity exceeds `isize::MAX` bytes.
pub assume_specification[ String::with_capacity ](capacity: usize) -> (s: String)
    requires
        capacity <= isize::MAX,
    ensures
        s@ == Seq::<char>::empty(),
;

/// Relies on `String::push`: the character is appended at the end.
pub assume_specification[ String::push ](s: &mut String, ch: char)
    ensures
        final(s)@ == old(s)@.push(ch),
;

/// The first `k` glyphs of row `y`, read right to left (mirrored).
pub open spec fn mirrored_glyphs(g: GridModel, ramp: Seq<char>, y: int, k: nat) -> Seq<char> {
    Seq::new(k, |i: int| ramp_glyph(ramp, g.at(g.width - 1 - i, y)))
}

/// Row `y` as text: its glyphs mirrored, then carriage return and newline.
pub open spec fn render_line(g: GridModel, ramp: Seq<char>, y: int) -> Seq<char> {
    mirrored_glyphs(g, ramp, y, g.width) + seq!['\r', '\n']
}

/// The first `n` rows of `g` as text.
pub open spec fn render_rows(g: GridModel, ramp: Seq<char>, n: nat) -> Seq<char>
    decreases n,
{
    if n == 0 {
        Seq::empty()
    } else {
        render_rows(g, ramp, (n - 1) as nat) + render_line(g, ramp, n - 1)
    }
}

/// The whole grid as text, one line per row, top row first.
pub open spec fn render_text(g: GridModel, ramp: Seq<char>) -> Seq<char> {
    render_rows(g, ramp, g.height)
}

/// Renders a grid with the shipped ramp: each row right to left, each sample
/// shown by its ramp glyph, each line closed by `"\r\n"`.
pub fn render_frame(grid: &LuminanceGrid) -> (r: String)
    requires
        grid.wf(),
    ensures
        r@ == render_text(grid@, default_ramp_spec()),
{
    let ramp = default_ramp();
    let bw = grid.width();
    let bh = grid.height();
    let ghost g = grid@;
    let ghost rs = default_ramp_spec();
    let cells: u64 = bw as u64 * bh as u64;
    let cap: u64 = cells + 2 * bh as u64;
    let mut buf = if cap <= isize::MAX as u64 {
        String::with_capacity(cap as usize)
    } else {
        String::new()
    };
    let mut y: u32 = 0;
    while y < bh
        invariant
            grid.wf(),
            g == grid@,
            rs == default_ramp_spec(),
            ramp@ == rs,
            bw == g.width,
            bh == g.height,
            y <= bh,
            buf@ == render_rows(g, rs, y as nat),
        decreases bh - y,
    {
        let mut x: u32 = bw;
        while x > 0
            invariant
                grid.wf(),
                g == grid@,
                ramp@ == rs,
                rs == default_ramp_spec(),
                bw == g.width,
                bh == g.height,
                y < bh,
                x <= bw,
                buf@ == render_rows(g, rs, y as nat) + mirrored_glyphs(g, rs, y as int, (bw - x) as nat),
            decreases x,
        {
            let pixel = grid.get(x - 1, y);
            let c = CharArr::get_char(CharArr::new(ramp.as_slice(), pixel));
            buf.push(c);
            x = x - 1;
            assert(mirrored_glyphs(g, rs, y as int, (bw - x) as nat) =~= mirrored_glyphs(
                g,
                rs,
                y as int,
                (bw - x - 1) as nat,
            ).push(c));
            assert(buf@ =~= render_rows(g, rs, y as nat) + mirrored_glyphs(g, rs, y as int, (bw - x) as nat));
        }
        buf.push('\r');
        buf.push('\n');
        assert(buf@ =~= render_rows(g, rs, (y + 1) as nat));
        y = y + 1;
    }
    buf
}

/// The first `n` rows take `n * (width + 2)` characters, and row `y` occupies
/// exactly the characters from `y * (width + 2)` to `(y + 1) * (width + 2)`.
pub proof fn lemma_render_rows_layout(g: GridModel, ramp: Seq<char>, n: nat)
    ensures
        render_rows(g, ramp, n).len() == n * (g.width + 2),
        forall|y: int|
            0 <= y < n ==> (#[trigger] render_rows(g, ramp, n).subrange(
                y * (g.width + 2),
                (y + 1) * (g.width + 2),
            )) == render_line(g, ramp, y),
    decreases n,
{
    let w = g.width + 2;
    if n > 0 {
        let m = (n - 1) as nat;
        lemma_render_rows_layout(g, ramp, m);
        let prev = render_rows(g, ramp, m);
        let line = render_line(g, ramp, m as int);
        assert(line.len() == w);
        assert(m * w + w == n * w) by (nonlinear_arith)
            requires
                m == n - 1,
        ;
        assert forall|y: int| 0 <= y < n implies (#[trigger] render_rows(g, ramp, n).subrange(
            y * w,
            (y + 1) * w,
        )) == render_line(g, ramp, y) by {
            if y < m {
                assert((y + 1) * w <= m * w) by (nonlinear_arith)
                    requires
                        y + 1 <= m,
                        w >= 2,
                ;
                assert(0 <= y * w) by (nonlinear_arith)
                    requires
                        y >= 0,
                        w >= 2,
                ;
                assert(y * w + w == (y + 1) * w) by (nonlinear_arith);
                assert((prev + line).subrange(y * w, (y + 1) * w) =~= prev.subrange(
                    y * w,
                    (y + 1) * w,
                ));
            } else {
                assert(y == m);
                assert((prev + line).subrange(y * w, (y + 1) * w) =~= line);
            }
        }
    }
}

/// A rendered `W` by `H` grid has exactly `H` lines: the text is `H * (W + 2)`
/// characters long, and line `y` is `W` glyphs followed by `"\r\n"`. With a
/// ramp that holds neither a carriage return nor a newline, the `W` glyphs
/// contain no line-end character.
pub proof fn lemma_render_line_count(g: GridModel, ramp: Seq<char>)
    requires
        g.wf(),
        ramp.len() >= 2,
    ensures
        render_text(g, ramp).len() == g.height * (g.width + 2),
        forall|y: int|
            0 <= y < g.height ==> {
                let line = #[trigger] render_text(g, ramp).subrange(
                    y * (g.width + 2),
                    (y + 1) * (g.width + 2),
                );
                &&& line == render_line(g, ramp, y)
                &&& line.len() == g.width + 2
                &&& line[g.width as int] == '\r'
                &&& line[g.width + 1int] == '\n'
                &&& (!ramp.contains('\r') && !ramp.contains('\n')) ==> forall|i: int|
                    0 <= i < g.width ==> line[i] != '\r' && line[i] != '\n'
            },
{
    lemma_render_rows_layout(g, ramp, g.height);
    assert forall|y: int| 0 <= y < g.height implies {
        let line = #[trigger] render_text(g, ramp).subrange(
            y * (g.width + 2),
            (y + 1) * (g.width + 2),
        );
        &&& line == render_line(g, ramp, y)
        &&& line.len() == g.width + 2
        &&& line[g.width as int] == '\r'
        &&& line[g.width + 1int] == '\n'
        &&& (!ramp.contains('\r') && !ramp.contains('\n')) ==> forall|i: int|
            0 <= i < g.width ==> line[i] != '\r' && line[i] != '\n'
    } by {
        let line = render_line(g, ramp, y);
        if !ramp.contains('\r') && !ramp.contains('\n') {
            assert forall|i: int| 0 <= i < g.width implies line[i] != '\r' && line[i] != '\n' by {
                let p = g.at(g.width - 1 - i, y);
                crate::ramp::lemma_ramp_index_bounds(ramp.len(), p);
                assert(line[i] == ramp[crate::ramp::ramp_index(ramp.len(), p)]);
            }
        }
    }
}

/// Rendering mirrors each row: the first glyph of line `y` shows the last
/// column of row `y`, and the last glyph shows the first column.
pub proof fn lemma_render_mirrors(g: GridModel, ramp: Seq<char>, y: int)
    requires
        g.wf(),
        0 <= y < g.height,
    ensures
        render_line(g, ramp, y)[0] == ramp_glyph(ramp, g.at(g.width - 1, y)),
        render_line(g, ramp, y)[g.width - 1] == ramp_glyph(ramp, g.at(0, y)),
        forall|x: int|
            0 <= x < g.width ==> #[trigger] render_line(g, ramp, y)[g.width - 1 - x] == ramp_glyph(
                ramp,
                g.at(x, y),
            ),
{
}

} // verus!
