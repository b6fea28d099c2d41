use vstd::prelude::*;

verus! {

/// Index into a ramp of `n` glyphs chosen for the luminance `p`:
/// `floor(p * (n - 1) / 255)`.
pub open spec fn ramp_index(n: nat, p: u8) -> int {
    (p as int * (n as int - 1)) / 255
}

/// The glyph of `ramp` that stands for luminance `p`.
pub open spec fn ramp_glyph(ramp: Seq<char>, p: u8) -> char {
    ramp[ramp_index(ramp.len(), p)]
}

/// The shipped ramp, darkest first; the three leading blanks bias dark
/// regions toward empty space.
pub open spec fn default_ramp_spec() -> Seq<char> {
    seq![' ', ' ', ' ', '.', ':', '-', '=', '+', '*', '#', '%', '@', '?']
}

/// Builds the shipped ramp.
pub fn default_ramp() -> (r: Vec<char>)
    ensures
        r@ == default_ramp_spec(),
{
    let r = vec![' ', ' ', ' ', '.', ':', '-', '=', '+', '*', '#', '%', '@', '?'];
    assert(r@ =~= default_ramp_spec());
    r
}

/// One luminance sample paired with the ramp it is shown with.
pub struct CharArr<'c> {
    pub charset: &'c [char],
    pub pixel: u8,
}

impl<'c> CharArr<'c> {
    pub fn new(charset: &'c [char], pixel: u8) -> (r: Self)
        ensures
            r.charset@ == charset@,
            r.pixel == pixel,
    {
        CharArr { charset, pixel }
    }

    /// The glyph for this sample: `charset[floor(pixel * (len - 1) / 255)]`.
    pub fn get_char(self) -> (c: char)
        requires
            self.charset@.len() >= 2,
        ensures
            c == ramp_glyph(self.charset@, self.pixel),
    {
        let n = self.charset.len();
        proof {
            lemma_ramp_index_bounds(n as nat, self.pixel);
        }
        let idx128: u128 = (self.pixel as u128 * (n - 1) as u128) / 255u128;
        let idx: usize = idx128 as usize;
        self.charset[idx]
    }
}

/// For every ramp of at least two glyphs and every luminance, the index lies in
/// `[0, n - 1]`; luminance 0 picks the first glyph and 255 the last.
pub proof fn lemma_ramp_index_bounds(n: nat, p: u8)
    requires
        n >= 2,
    ensures
        0 <= ramp_index(n, p) <= n - 1,
        ramp_index(n, 0) == 0,
        ramp_index(n, 255) == n - 1,
{
    let m = n as int - 1;
    assert(0 <= (p as int * m) / 255 <= m) by (nonlinear_arith)
        requires
            m >= 1,
            0 <= p <= 255,
    ;
    assert((255 * m) / 255 == m) by (nonlinear_arith)
        requires
            m >= 1,
    ;
}

/// The ramp index is monotone in the luminance.
pub proof fn lemma_ramp_index_monotone(n: nat, p: u8, q: u8)
    requires
        n >= 2,
        p <= q,
    ensures
        ramp_index(n, p) <= ramp_index(n, q),
{
    let m = n as int - 1;
    assert((p as int * m) / 255 <= (q as int * m) / 255) by (nonlinear_arith)
        requires
            m >= 1,
            0 <= p <= q,
    ;
}

} // verus!
