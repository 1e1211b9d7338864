use vstd::prelude::*;

verus! {

/// Whether bit `8 - pos` of `mode` is set: position 0 is the owner's read bit,
/// position 8 the other users' execute bit.
pub open spec fn bit_at(mode: u32, pos: int) -> bool {
    mode & (1u32 << ((8 - pos) as u32)) != 0
}

/// The glyph that a set bit shows at a position: `r`, `w`, `x` in turn.
pub open spec fn glyph_at(pos: int) -> char {
    if pos % 3 == 0 {
        'r'
    } else if pos % 3 == 1 {
        'w'
    } else {
        'x'
    }
}

/// The nine-character symbolic form of the low nine permission bits.
pub open spec fn symbolic(mode: u32) -> Seq<char> {
    Seq::new(9, |pos: int| if bit_at(mode, pos) { glyph_at(pos) } else { '-' })
}

fn glyph_text(pos: usize, set: bool) -> (r: &'static str)
    requires
        pos < 9,
    ensures
        r@ == seq![if set { glyph_at(pos as int) } else { '-' }],
{
    proof {
        reveal_strlit("r");
        reveal_strlit("w");
        reveal_strlit("x");
        reveal_strlit("-");
    }
    if !set {
        "-"
    } else if pos % 3 == 0 {
        "r"
    } else if pos % 3 == 1 {
        "w"
    } else {
        "x"
    }
}

/// Renders the owner, group and other read/write/execute bits of `mode` as
/// nine characters, `-` for each bit that is clear.
pub fn numeric_to_symbolic(mode: u32) -> (r: String)
    ensures
        r@ == symbolic(mode),
        r@.len() == 9,
        forall|pos: int|
            0 <= pos < 9 ==> #[trigger] r@[pos] == (if bit_at(mode, pos) {
                glyph_at(pos)
            } else {
                '-'
            }),
{
    let mut out = String::new();
    let mut pos: usize = 0;
    while pos < 9
        invariant
            pos <= 9,
            out@ == symbolic(mode).take(pos as int),
        decreases 9 - pos,
    {
        let mask: u32 = 1u32 << ((8 - pos) as u32);
        let set = mode & mask != 0;
        out.append(glyph_text(pos, set));
        assert(out@ =~= symbolic(mode).take(pos + 1));
        pos = pos + 1;
    }
    assert(out@ =~= symbolic(mode));
    out
}

} // verus!
