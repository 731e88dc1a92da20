//! The colour block modules: two rows of eight background-coloured blocks,
//! the normal colours above the bright ones.

use vstd::prelude::*;
use crate::modules::{ModuleKind, kind_name};
use crate::style::{line_renders_as, render_line, seg, seg_views, ColorName, Paint, Segment};
use crate::text::{owned, push_char, push_str, spaces};

verus! {

/// Two rows of blocks four spaces wide.
pub struct ColorBlocksBig;

/// Two rows of blocks two spaces wide.
pub struct ColorBlocksSmall;

/// The colour of block `k` (0 to 7) of a row, normal or bright.
pub open spec fn block_color(k: int, bright: bool) -> ColorName {
    if !bright {
        if k == 0 {
            ColorName::Black
        } else if k == 1 {
            ColorName::Red
        } else if k == 2 {
            ColorName::Green
        } else if k == 3 {
            ColorName::Yellow
        } else if k == 4 {
            ColorName::Blue
        } else if k == 5 {
            ColorName::Magenta
        } else if k == 6 {
            ColorName::Cyan
        } else {
            ColorName::White
        }
    } else {
        if k == 0 {
            ColorName::BrightBlack
        } else if k == 1 {
            ColorName::BrightRed
        } else if k == 2 {
            ColorName::BrightGreen
        } else if k == 3 {
            ColorName::BrightYellow
        } else if k == 4 {
            ColorName::BrightBlue
        } else if k == 5 {
            ColorName::BrightMagenta
        } else if k == 6 {
            ColorName::BrightCyan
        } else {
            ColorName::BrightWhite
        }
    }
}

/// A row of eight copies of `block`, each on its background colour.
pub open spec fn block_row(block: Seq<char>, bright: bool) -> Seq<(Seq<char>, Paint)> {
    Seq::new(8, |k: int| (block, Paint::Bg(block_color(k, bright))))
}

/// `out` is the two rows of `block`s, the bright row below.
pub open spec fn blocks_render_as(block: Seq<char>, out: Seq<char>) -> bool {
    exists|r1: Seq<char>, r2: Seq<char>|
        #![trigger line_renders_as(block_row(block, false), r1), line_renders_as(block_row(block, true), r2)]
        out == r1 + "\n"@ + r2 && line_renders_as(block_row(block, false), r1) && line_renders_as(
            block_row(block, true),
            r2,
        )
}

/// Block `k`'s colour.
fn block_color_at(k: usize, bright: bool) -> (c: ColorName)
    requires
        k < 8,
    ensures
        c == block_color(k as int, bright),
{
    if !bright {
        match k {
            0 => ColorName::Black,
            1 => ColorName::Red,
            2 => ColorName::Green,
            3 => ColorName::Yellow,
            4 => ColorName::Blue,
            5 => ColorName::Magenta,
            6 => ColorName::Cyan,
            _ => ColorName::White,
        }
    } else {
        match k {
            0 => ColorName::BrightBlack,
            1 => ColorName::BrightRed,
            2 => ColorName::BrightGreen,
            3 => ColorName::BrightYellow,
            4 => ColorName::BrightBlue,
            5 => ColorName::BrightMagenta,
            6 => ColorName::BrightCyan,
            _ => ColorName::BrightWhite,
        }
    }
}

/// One painted row of blocks made of `block`.
fn row(block: &str, bright: bool) -> (r: String)
    ensures
        line_renders_as(block_row(block@, bright), r@),
{
    let mut segs: Vec<Segment> = Vec::new();
    let mut k: usize = 0;
    while k < 8
        invariant
            k <= 8,
            seg_views(segs@) == block_row(block@, bright).take(k as int),
        decreases 8 - k,
    {
        let c = block_color_at(k, bright);
        let s = seg(owned(block), Paint::Bg(c));
        let ghost before = segs@;
        segs.push(s);
        proof {
            assert(seg_views(segs@) =~= seg_views(before).push((s.text@, s.paint)));
            assert(block_row(block@, bright).take(k + 1) =~= block_row(block@, bright).take(
                k as int,
            ).push((block@, Paint::Bg(c))));
        }
        k = k + 1;
    }
    assert(block_row(block@, bright).take(8) =~= block_row(block@, bright));
    render_line(&segs)
}

/// Both rows of blocks made of `block`.
fn blocks(block: &str) -> (r: String)
    ensures
        blocks_render_as(block@, r@),
{
    let r1 = row(block, false);
    let r2 = row(block, true);
    let mut r = r1;
    push_char(&mut r, '\n');
    push_str(&mut r, r2.as_str());
    assert(r@ == r1@ + "\n"@ + r2@) by {
        assert(r1@.push('\n') + r2@ =~= r1@ + "\n"@ + r2@) by {
            reveal_strlit("\n");
        }
    }
    r
}

impl ColorBlocksBig {
    /// The module's title: none, the blocks stand alone.
    pub fn name(&self) -> (r: &'static str)
        ensures
            r == kind_name(ModuleKind::ColorBlocksBig),
    {
        ""
    }

    /// The two rows of wide blocks.
    pub fn collect(&self) -> (r: Option<String>)
        ensures
            r matches Some(t) && blocks_render_as(spaces(4), t@),
    {
        proof {
            reveal_strlit("    ");
        }
        let b = "    ";
        assert(b@ == spaces(4));
        Some(blocks(b))
    }
}

impl ColorBlocksSmall {
    /// The module's title: none, the blocks stand alone.
    pub fn name(&self) -> (r: &'static str)
        ensures
            r == kind_name(ModuleKind::ColorBlocksSmall),
    {
        ""
    }

    /// The two rows of narrow blocks.
    pub fn collect(&self) -> (r: Option<String>)
        ensures
            r matches Some(t) && blocks_render_as(spaces(2), t@),
    {
        proof {
            reveal_strlit("  ");
        }
        let b = "  ";
        assert(b@ == spaces(2));
        Some(blocks(b))
    }
}

} // verus!
