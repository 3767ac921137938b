//! The campfire of the dungeon's rest rooms, in four animation frames.
use vstd::prelude::*;

use super::{art_views, lit, push_span, row_width, span_views, ArtTone};
use crate::layout::campfire_columns;

verus! {

/// Row 0 of the campfire art.
pub open spec fn campfire_row_0(frame: nat) -> Seq<(ArtTone, Seq<char>)> {
    if frame == 0 {
        seq![
            (ArtTone::HotWhite, "        *"@),
            (ArtTone::BrightYellow, "    ."@),
            (ArtTone::FlameOrange, "    '"@),
            (ArtTone::BrightYellow, "    ."@),
            (ArtTone::HotWhite, "   "@),
        ]
    } else if frame == 1 {
        seq![
            (ArtTone::BrightYellow, "        ."@),
            (ArtTone::HotWhite, "    *"@),
            (ArtTone::BrightYellow, "    ."@),
            (ArtTone::FlameOrange, "    '"@),
            (ArtTone::BrightYellow, "   "@),
        ]
    } else if frame == 2 {
        seq![
            (ArtTone::FlameOrange, "        '"@),
            (ArtTone::BrightYellow, "    ."@),
            (ArtTone::HotWhite, "    *"@),
            (ArtTone::BrightYellow, "    ."@),
            (ArtTone::FlameOrange, "   "@),
        ]
    } else {
        seq![
            (ArtTone::BrightYellow, "        ."@),
            (ArtTone::FlameOrange, "    '"@),
            (ArtTone::BrightYellow, "    ."@),
            (ArtTone::HotWhite, "    *"@),
            (ArtTone::BrightYellow, "   "@),
        ]
    }
}

/// Row 1 of the campfire art.
pub open spec fn campfire_row_1(frame: nat) -> Seq<(ArtTone, Seq<char>)> {
    if frame == 0 {
        seq![
            (ArtTone::BrightYellow, "          '"@),
            (ArtTone::FlameOrange, "  `"@),
            (ArtTone::FlameOrange, "~^~^~^~"@),
            (ArtTone::FlameOrange, "`"@),
            (ArtTone::BrightYellow, "  '  "@),
        ]
    } else if frame == 1 {
        seq![
            (ArtTone::FlameOrange, "          `"@),
            (ArtTone::BrightYellow, "  '"@),
            (ArtTone::FlameOrange, "^~^~^~^"@),
            (ArtTone::BrightYellow, "'"@),
            (ArtTone::FlameOrange, "  `  "@),
        ]
    } else if frame == 2 {
        seq![
            (ArtTone::BrightYellow, "          '"@),
            (ArtTone::BrightYellow, "  '"@),
            (ArtTone::FlameOrange, "~^~^~^~"@),
            (ArtTone::FlameOrange, "`"@),
            (ArtTone::BrightYellow, "  '  "@),
        ]
    } else {
        seq![
            (ArtTone::FlameOrange, "          `"@),
            (ArtTone::FlameOrange, "  `"@),
            (ArtTone::FlameOrange, "^~^~^~^"@),
            (ArtTone::BrightYellow, "'"@),
            (ArtTone::FlameOrange, "  `  "@),
        ]
    }
}

/// Row 2 of the campfire art.
pub open spec fn campfire_row_2(frame: nat) -> Seq<(ArtTone, Seq<char>)> {
    if frame == 0 {
        seq![
            (ArtTone::BrightYellow, "        '"@),
            (ArtTone::FlameOrange, "  ~*~"@),
            (ArtTone::DeepOrange, "'\"'^\"'"@),
            (ArtTone::FlameOrange, "~*~"@),
            (ArtTone::BrightYellow, "  ' "@),
        ]
    } else if frame == 1 {
        seq![
            (ArtTone::FlameOrange, "        `"@),
            (ArtTone::FlameOrange, "  *~*"@),
            (ArtTone::DeepOrange, "\"'\"'\"'"@),
            (ArtTone::FlameOrange, "*~*"@),
            (ArtTone::FlameOrange, "  ` "@),
        ]
    } else if frame == 2 {
        seq![
            (ArtTone::BrightYellow, "        '"@),
            (ArtTone::FlameOrange, "  ~o~"@),
            (ArtTone::DeepOrange, "'\"'^\"'"@),
            (ArtTone::FlameOrange, "~o~"@),
            (ArtTone::BrightYellow, "  ' "@),
        ]
    } else {
        seq![
            (ArtTone::FlameOrange, "        `"@),
            (ArtTone::FlameOrange, "  o~o"@),
            (ArtTone::DeepOrange, "\"'\"'\"'"@),
            (ArtTone::FlameOrange, "o~o"@),
            (ArtTone::FlameOrange, "  ` "@),
        ]
    }
}

/// Row 3 of the campfire art.
pub open spec fn campfire_row_3(frame: nat) -> Seq<(ArtTone, Seq<char>)> {
    if frame == 0 {
        seq![
            (ArtTone::BrightYellow, "      ."@),
            (ArtTone::DeepOrange, "  '~\"~"@),
            (ArtTone::EmberRed, "*~@#@~*"@),
            (ArtTone::DeepOrange, "~\"~'"@),
            (ArtTone::BrightYellow, "  ."@),
        ]
    } else if frame == 1 {
        seq![
            (ArtTone::FlameOrange, "      '"@),
            (ArtTone::DeepOrange, "  ~\"~'"@),
            (ArtTone::EmberRed, "~@#@#@~"@),
            (ArtTone::DeepOrange, "'~\"~"@),
            (ArtTone::FlameOrange, "  '"@),
        ]
    } else if frame == 2 {
        seq![
            (ArtTone::BrightYellow, "      ."@),
            (ArtTone::DeepOrange, "  \"~'~"@),
            (ArtTone::EmberRed, "*@#@#@*"@),
            (ArtTone::DeepOrange, "~'~\""@),
            (ArtTone::BrightYellow, "  ."@),
        ]
    } else {
        seq![
            (ArtTone::FlameOrange, "      '"@),
            (ArtTone::DeepOrange, "  ~'~\""@),
            (ArtTone::EmberRed, "~#@#@#~"@),
            (ArtTone::DeepOrange, "\"~'~"@),
            (ArtTone::FlameOrange, "  '"@),
        ]
    }
}

/// Row 4 of the campfire art.
pub open spec fn campfire_row_4(frame: nat) -> Seq<(ArtTone, Seq<char>)> {
    if frame == 0 {
        seq![
            (ArtTone::FlameOrange, "    '"@),
            (ArtTone::DeepOrange, "  `~^~"@),
            (ArtTone::EmberRed, "'\"@#@#@\"'"@),
            (ArtTone::DeepOrange, "~^~`"@),
            (ArtTone::FlameOrange, "  '"@),
        ]
    } else if frame == 1 {
        seq![
            (ArtTone::FlameOrange, "    `"@),
            (ArtTone::DeepOrange, "  ~^~`"@),
            (ArtTone::EmberRed, "\"'#@#@#'\""@),
            (ArtTone::DeepOrange, "`~^~"@),
            (ArtTone::FlameOrange, "  `"@),
        ]
    } else if frame == 2 {
        seq![
            (ArtTone::FlameOrange, "    '"@),
            (ArtTone::DeepOrange, "  ^~`~"@),
            (ArtTone::EmberRed, "'@#@#@#@'"@),
            (ArtTone::DeepOrange, "~`~^"@),
            (ArtTone::FlameOrange, "  '"@),
        ]
    } else {
        seq![
            (ArtTone::FlameOrange, "    `"@),
            (ArtTone::DeepOrange, "  ~`~^"@),
            (ArtTone::EmberRed, "\"#@#@#@#\""@),
            (ArtTone::DeepOrange, "^~`~"@),
            (ArtTone::FlameOrange, "  `"@),
        ]
    }
}

/// Row 5 of the campfire art.
pub open spec fn campfire_row_5(frame: nat) -> Seq<(ArtTone, Seq<char>)> {
    if frame == 0 {
        seq![
            (ArtTone::EmberRed, "   "@),
            (ArtTone::DeepOrange, "'~^~`"@),
            (ArtTone::EmberRed, "'\"@#O#O#@\"'"@),
            (ArtTone::DeepOrange, "`~^~'"@),
            (ArtTone::EmberRed, "   "@),
        ]
    } else if frame == 1 {
        seq![
            (ArtTone::EmberRed, "   "@),
            (ArtTone::DeepOrange, "~^~`'"@),
            (ArtTone::EmberRed, "\"'#O#O#O#'\""@),
            (ArtTone::DeepOrange, "'`~^~"@),
            (ArtTone::EmberRed, "   "@),
        ]
    } else if frame == 2 {
        seq![
            (ArtTone::EmberRed, "   "@),
            (ArtTone::DeepOrange, "^~`~'"@),
            (ArtTone::EmberRed, "'O#O#O#O#O'"@),
            (ArtTone::DeepOrange, "'~`~^"@),
            (ArtTone::EmberRed, "   "@),
        ]
    } else {
        seq![
            (ArtTone::EmberRed, "   "@),
            (ArtTone::DeepOrange, "~`~^'"@),
            (ArtTone::EmberRed, "\"#O#O#O#O#\""@),
            (ArtTone::DeepOrange, "'^~`~"@),
            (ArtTone::EmberRed, "   "@),
        ]
    }
}

/// Row 6 of the campfire art.
pub open spec fn campfire_row_6(frame: nat) -> Seq<(ArtTone, Seq<char>)> {
    if frame == 0 {
        seq![
            (ArtTone::CoalBlack, "   "@),
            (ArtTone::CoalBlack, "▄"@),
            (ArtTone::EmberRed, "░▓"@),
            (ArtTone::CoalBlack, "█▄██▄█"@),
            (ArtTone::EmberRed, "▓░▓"@),
            (ArtTone::CoalBlack, "██▄██"@),
            (ArtTone::EmberRed, "▓░"@),
            (ArtTone::CoalBlack, "▄"@),
            (ArtTone::CoalBlack, "   "@),
        ]
    } else if frame == 1 {
        seq![
            (ArtTone::CoalBlack, "   "@),
            (ArtTone::CoalBlack, "▄"@),
            (ArtTone::EmberRed, "▓░"@),
            (ArtTone::CoalBlack, "██▄██▄"@),
            (ArtTone::EmberRed, "░▓░"@),
            (ArtTone::CoalBlack, "█▄██▄"@),
            (ArtTone::EmberRed, "░▓"@),
            (ArtTone::CoalBlack, "▄"@),
            (ArtTone::CoalBlack, "   "@),
        ]
    } else if frame == 2 {
        seq![
            (ArtTone::CoalBlack, "   "@),
            (ArtTone::CoalBlack, "▄"@),
            (ArtTone::EmberRed, "░▓"@),
            (ArtTone::CoalBlack, "█▄██▄█"@),
            (ArtTone::EmberRed, "▓░▓"@),
            (ArtTone::CoalBlack, "██▄██"@),
            (ArtTone::EmberRed, "▓░"@),
            (ArtTone::CoalBlack, "▄"@),
            (ArtTone::CoalBlack, "   "@),
        ]
    } else {
        seq![
            (ArtTone::CoalBlack, "   "@),
            (ArtTone::CoalBlack, "▄"@),
            (ArtTone::EmberRed, "▓░"@),
            (ArtTone::CoalBlack, "██▄██▄"@),
            (ArtTone::EmberRed, "░▓░"@),
            (ArtTone::CoalBlack, "█▄██▄"@),
            (ArtTone::EmberRed, "░▓"@),
            (ArtTone::CoalBlack, "▄"@),
            (ArtTone::CoalBlack, "   "@),
        ]
    }
}

/// Row 7 of the campfire art.
pub open spec fn campfire_row_7(frame: nat) -> Seq<(ArtTone, Seq<char>)> {
    seq![
        (ArtTone::DarkWalnut, " \\"@),
        (ArtTone::WoodBrown, "▄▄▄▄▄▄▄▄▄▄▄▄▄▄▄▄▄▄▄▄▄▄▄"@),
        (ArtTone::DarkWalnut, "/ "@),
    ]
}

/// Row 8 of the campfire art.
pub open spec fn campfire_row_8(frame: nat) -> Seq<(ArtTone, Seq<char>)> {
    seq![
        (ArtTone::DarkWalnut, "  /"@),
        (ArtTone::WoodBrown, "▀▀▀▀▀▀▀▀▀▀▀▀▀▀▀▀▀▀▀▀▀"@),
        (ArtTone::DarkWalnut, "\\  "@),
    ]
}

/// Row 9 of the campfire art.
pub open spec fn campfire_row_9(frame: nat) -> Seq<(ArtTone, Seq<char>)> {
    seq![
        (ArtTone::DarkStone, "."@),
        (ArtTone::Granite, "o"@),
        (ArtTone::DarkStone, "O"@),
        (ArtTone::Granite, "o"@),
        (ArtTone::DarkStone, "."@),
        (ArtTone::Granite, "O"@),
        (ArtTone::DarkStone, "o"@),
        (ArtTone::Granite, "."@),
        (ArtTone::DarkStone, "O"@),
        (ArtTone::Granite, "o"@),
        (ArtTone::DarkStone, "."@),
        (ArtTone::Granite, "O"@),
        (ArtTone::DarkStone, "o"@),
        (ArtTone::Granite, "."@),
        (ArtTone::DarkStone, "O"@),
        (ArtTone::Granite, "o"@),
        (ArtTone::DarkStone, "."@),
        (ArtTone::Granite, "O"@),
        (ArtTone::DarkStone, "o"@),
        (ArtTone::Granite, "."@),
        (ArtTone::DarkStone, "O"@),
        (ArtTone::Granite, "o"@),
        (ArtTone::DarkStone, "."@),
        (ArtTone::Granite, "O"@),
        (ArtTone::DarkStone, "o"@),
    ]
}

/// The width of each row of the campfire art, in columns.
pub open spec fn campfire_row_width(frame: nat, row: int) -> nat {
    if row == 0 {
        (27) as nat
    } else if row == 1 {
        (27) as nat
    } else if row == 2 {
        (27) as nat
    } else if row == 3 {
        (27) as nat
    } else if row == 4 {
        (27) as nat
    } else if row == 5 {
        (27) as nat
    } else if row == 6 {
        (26) as nat
    } else if row == 7 {
        (27) as nat
    } else if row == 8 {
        (27) as nat
    } else if row == 9 {
        (25) as nat
    } else {
        0
    }
}

/// The campfire at animation `frame`: sparks, five rows of flames, the coals, two rows of logs and the ring of stones.
pub open spec fn spec_campfire_art(frame: nat) -> Seq<Seq<(ArtTone, Seq<char>)>> {
    seq![
        campfire_row_0(frame),
        campfire_row_1(frame),
        campfire_row_2(frame),
        campfire_row_3(frame),
        campfire_row_4(frame),
        campfire_row_5(frame),
        campfire_row_6(frame),
        campfire_row_7(frame),
        campfire_row_8(frame),
        campfire_row_9(frame),
    ]
}

fn campfire_row_0_spans(frame: usize) -> (r: Vec<(ArtTone, String)>)
    ensures
        span_views(r@) == campfire_row_0(frame as nat),
        row_width(span_views(r@)) == campfire_row_width(frame as nat, 0),
{
    proof {
        reveal_strlit("   ");
        reveal_strlit("        '");
        reveal_strlit("        *");
        reveal_strlit("        .");
        reveal_strlit("    '");
        reveal_strlit("    *");
        reveal_strlit("    .");
    }
    let mut r: Vec<(ArtTone, String)> = Vec::new();
    if frame == 0 {
        push_span(&mut r, lit(ArtTone::HotWhite, "        *"));
        push_span(&mut r, lit(ArtTone::BrightYellow, "    ."));
        push_span(&mut r, lit(ArtTone::FlameOrange, "    '"));
        push_span(&mut r, lit(ArtTone::BrightYellow, "    ."));
        push_span(&mut r, lit(ArtTone::HotWhite, "   "));
        assert(span_views(r@) =~= seq![
            (ArtTone::HotWhite, "        *"@),
            (ArtTone::BrightYellow, "    ."@),
            (ArtTone::FlameOrange, "    '"@),
            (ArtTone::BrightYellow, "    ."@),
            (ArtTone::HotWhite, "   "@),
        ]);
    } else if frame == 1 {
        push_span(&mut r, lit(ArtTone::BrightYellow, "        ."));
        push_span(&mut r, lit(ArtTone::HotWhite, "    *"));
        push_span(&mut r, lit(ArtTone::BrightYellow, "    ."));
        push_span(&mut r, lit(ArtTone::FlameOrange, "    '"));
        push_span(&mut r, lit(ArtTone::BrightYellow, "   "));
        assert(span_views(r@) =~= seq![
            (ArtTone::BrightYellow, "        ."@),
            (ArtTone::HotWhite, "    *"@),
            (ArtTone::BrightYellow, "    ."@),
            (ArtTone::FlameOrange, "    '"@),
            (ArtTone::BrightYellow, "   "@),
        ]);
    } else if frame == 2 {
        push_span(&mut r, lit(ArtTone::FlameOrange, "        '"));
        push_span(&mut r, lit(ArtTone::BrightYellow, "    ."));
        push_span(&mut r, lit(ArtTone::HotWhite, "    *"));
        push_span(&mut r, lit(ArtTone::BrightYellow, "    ."));
        push_span(&mut r, lit(ArtTone::FlameOrange, "   "));
        assert(span_views(r@) =~= seq![
            (ArtTone::FlameOrange, "        '"@),
            (ArtTone::BrightYellow, "    ."@),
            (ArtTone::HotWhite, "    *"@),
            (ArtTone::BrightYellow, "    ."@),
            (ArtTone::FlameOrange, "   "@),
        ]);
    } else {
        push_span(&mut r, lit(ArtTone::BrightYellow, "        ."));
        push_span(&mut r, lit(ArtTone::FlameOrange, "    '"));
        push_span(&mut r, lit(ArtTone::BrightYellow, "    ."));
        push_span(&mut r, lit(ArtTone::HotWhite, "    *"));
        push_span(&mut r, lit(ArtTone::BrightYellow, "   "));
        assert(span_views(r@) =~= seq![
            (ArtTone::BrightYellow, "        ."@),
            (ArtTone::FlameOrange, "    '"@),
            (ArtTone::BrightYellow, "    ."@),
            (ArtTone::HotWhite, "    *"@),
            (ArtTone::BrightYellow, "   "@),
        ]);
    }
    r
}

fn campfire_row_1_spans(frame: usize) -> (r: Vec<(ArtTone, String)>)
    ensures
        span_views(r@) == campfire_row_1(frame as nat),
        row_width(span_views(r@)) == campfire_row_width(frame as nat, 1),
{
    proof {
        reveal_strlit("          '");
        reveal_strlit("          `");
        reveal_strlit("  '");
        reveal_strlit("  '  ");
        reveal_strlit("  `");
        reveal_strlit("  `  ");
        reveal_strlit("'");
        reveal_strlit("^~^~^~^");
        reveal_strlit("`");
        reveal_strlit("~^~^~^~");
    }
    let mut r: Vec<(ArtTone, String)> = Vec::new();
    if frame == 0 {
        push_span(&mut r, lit(ArtTone::BrightYellow, "          '"));
        push_span(&mut r, lit(ArtTone::FlameOrange, "  `"));
        push_span(&mut r, lit(ArtTone::FlameOrange, "~^~^~^~"));
        push_span(&mut r, lit(ArtTone::FlameOrange, "`"));
        push_span(&mut r, lit(ArtTone::BrightYellow, "  '  "));
        assert(span_views(r@) =~= seq![
            (ArtTone::BrightYellow, "          '"@),
            (ArtTone::FlameOrange, "  `"@),
            (ArtTone::FlameOrange, "~^~^~^~"@),
            (ArtTone::FlameOrange, "`"@),
            (ArtTone::BrightYellow, "  '  "@),
        ]);
    } else if frame == 1 {
        push_span(&mut r, lit(ArtTone::FlameOrange, "          `"));
        push_span(&mut r, lit(ArtTone::BrightYellow, "  '"));
        push_span(&mut r, lit(ArtTone::FlameOrange, "^~^~^~^"));
        push_span(&mut r, lit(ArtTone::BrightYellow, "'"));
        push_span(&mut r, lit(ArtTone::FlameOrange, "  `  "));
        assert(span_views(r@) =~= seq![
            (ArtTone::FlameOrange, "          `"@),
            (ArtTone::BrightYellow, "  '"@),
            (ArtTone::FlameOrange, "^~^~^~^"@),
            (ArtTone::BrightYellow, "'"@),
            (ArtTone::FlameOrange, "  `  "@),
        ]);
    } else if frame == 2 {
        push_span(&mut r, lit(ArtTone::BrightYellow, "          '"));
        push_span(&mut r, lit(ArtTone::BrightYellow, "  '"));
        push_span(&mut r, lit(ArtTone::FlameOrange, "~^~^~^~"));
        push_span(&mut r, lit(ArtTone::FlameOrange, "`"));
        push_span(&mut r, lit(ArtTone::BrightYellow, "  '  "));
        assert(span_views(r@) =~= seq![
            (ArtTone::BrightYellow, "          '"@),
            (ArtTone::BrightYellow, "  '"@),
            (ArtTone::FlameOrange, "~^~^~^~"@),
            (ArtTone::FlameOrange, "`"@),
            (ArtTone::BrightYellow, "  '  "@),
        ]);
    } else {
        push_span(&mut r, lit(ArtTone::FlameOrange, "          `"));
        push_span(&mut r, lit(ArtTone::FlameOrange, "  `"));
        push_span(&mut r, lit(ArtTone::FlameOrange, "^~^~^~^"));
        push_span(&mut r, lit(ArtTone::BrightYellow, "'"));
        push_span(&mut r, lit(ArtTone::FlameOrange, "  `  "));
        assert(span_views(r@) =~= seq![
            (ArtTone::FlameOrange, "          `"@),
            (ArtTone::FlameOrange, "  `"@),
            (ArtTone::FlameOrange, "^~^~^~^"@),
            (ArtTone::BrightYellow, "'"@),
            (ArtTone::FlameOrange, "  `  "@),
        ]);
    }
    r
}

fn campfire_row_2_spans(frame: usize) -> (r: Vec<(ArtTone, String)>)
    ensures
        span_views(r@) == campfire_row_2(frame as nat),
        row_width(span_views(r@)) == campfire_row_width(frame as nat, 2),
{
    proof {
        reveal_strlit("        '");
        reveal_strlit("        `");
        reveal_strlit("  ' ");
        reveal_strlit("  *~*");
        reveal_strlit("  ` ");
        reveal_strlit("  o~o");
        reveal_strlit("  ~*~");
        reveal_strlit("  ~o~");
        reveal_strlit("\"'\"'\"'");
        reveal_strlit("'\"'^\"'");
        reveal_strlit("*~*");
        reveal_strlit("o~o");
        reveal_strlit("~*~");
        reveal_strlit("~o~");
    }
    let mut r: Vec<(ArtTone, String)> = Vec::new();
    if frame == 0 {
        push_span(&mut r, lit(ArtTone::BrightYellow, "        '"));
        push_span(&mut r, lit(ArtTone::FlameOrange, "  ~*~"));
        push_span(&mut r, lit(ArtTone::DeepOrange, "'\"'^\"'"));
        push_span(&mut r, lit(ArtTone::FlameOrange, "~*~"));
        push_span(&mut r, lit(ArtTone::BrightYellow, "  ' "));
        assert(span_views(r@) =~= seq![
            (ArtTone::BrightYellow, "        '"@),
            (ArtTone::FlameOrange, "  ~*~"@),
            (ArtTone::DeepOrange, "'\"'^\"'"@),
            (ArtTone::FlameOrange, "~*~"@),
            (ArtTone::BrightYellow, "  ' "@),
        ]);
    } else if frame == 1 {
        push_span(&mut r, lit(ArtTone::FlameOrange, "        `"));
        push_span(&mut r, lit(ArtTone::FlameOrange, "  *~*"));
        push_span(&mut r, lit(ArtTone::DeepOrange, "\"'\"'\"'"));
        push_span(&mut r, lit(ArtTone::FlameOrange, "*~*"));
        push_span(&mut r, lit(ArtTone::FlameOrange, "  ` "));
        assert(span_views(r@) =~= seq![
            (ArtTone::FlameOrange, "        `"@),
            (ArtTone::FlameOrange, "  *~*"@),
            (ArtTone::DeepOrange, "\"'\"'\"'"@),
            (ArtTone::FlameOrange, "*~*"@),
            (ArtTone::FlameOrange, "  ` "@),
        ]);
    } else if frame == 2 {
        push_span(&mut r, lit(ArtTone::BrightYellow, "        '"));
        push_span(&mut r, lit(ArtTone::FlameOrange, "  ~o~"));
        push_span(&mut r, lit(ArtTone::DeepOrange, "'\"'^\"'"));
        push_span(&mut r, lit(ArtTone::FlameOrange, "~o~"));
        push_span(&mut r, lit(ArtTone::BrightYellow, "  ' "));
        assert(span_views(r@) =~= seq![
            (ArtTone::BrightYellow, "        '"@),
            (ArtTone::FlameOrange, "  ~o~"@),
            (ArtTone::DeepOrange, "'\"'^\"'"@),
            (ArtTone::FlameOrange, "~o~"@),
            (ArtTone::BrightYellow, "  ' "@),
        ]);
    } else {
        push_span(&mut r, lit(ArtTone::FlameOrange, "        `"));
        push_span(&mut r, lit(ArtTone::FlameOrange, "  o~o"));
        push_span(&mut r, lit(ArtTone::DeepOrange, "\"'\"'\"'"));
        push_span(&mut r, lit(ArtTone::FlameOrange, "o~o"));
        push_span(&mut r, lit(ArtTone::FlameOrange, "  ` "));
        assert(span_views(r@) =~= seq![
            (ArtTone::FlameOrange, "        `"@),
            (ArtTone::FlameOrange, "  o~o"@),
            (ArtTone::DeepOrange, "\"'\"'\"'"@),
            (ArtTone::FlameOrange, "o~o"@),
            (ArtTone::FlameOrange, "  ` "@),
        ]);
    }
    r
}

fn campfire_row_3_spans(frame: usize) -> (r: Vec<(ArtTone, String)>)
    ensures
        span_views(r@) == campfire_row_3(frame as nat),
        row_width(span_views(r@)) == campfire_row_width(frame as nat, 3),
{
    proof {
        reveal_strlit("      '");
        reveal_strlit("      .");
        reveal_strlit("  \"~'~");
        reveal_strlit("  '");
        reveal_strlit("  '~\"~");
        reveal_strlit("  .");
        reveal_strlit("  ~\"~'");
        reveal_strlit("  ~'~\"");
        reveal_strlit("\"~'~");
        reveal_strlit("'~\"~");
        reveal_strlit("*@#@#@*");
        reveal_strlit("*~@#@~*");
        reveal_strlit("~\"~'");
        reveal_strlit("~#@#@#~");
        reveal_strlit("~'~\"");
        reveal_strlit("~@#@#@~");
    }
    let mut r: Vec<(ArtTone, String)> = Vec::new();
    if frame == 0 {
        push_span(&mut r, lit(ArtTone::BrightYellow, "      ."));
        push_span(&mut r, lit(ArtTone::DeepOrange, "  '~\"~"));
        push_span(&mut r, lit(ArtTone::EmberRed, "*~@#@~*"));
        push_span(&mut r, lit(ArtTone::DeepOrange, "~\"~'"));
        push_span(&mut r, lit(ArtTone::BrightYellow, "  ."));
        assert(span_views(r@) =~= seq![
            (ArtTone::BrightYellow, "      ."@),
            (ArtTone::DeepOrange, "  '~\"~"@),
            (ArtTone::EmberRed, "*~@#@~*"@),
            (ArtTone::DeepOrange, "~\"~'"@),
            (ArtTone::BrightYellow, "  ."@),
        ]);
    } else if frame == 1 {
        push_span(&mut r, lit(ArtTone::FlameOrange, "      '"));
        push_span(&mut r, lit(ArtTone::DeepOrange, "  ~\"~'"));
        push_span(&mut r, lit(ArtTone::EmberRed, "~@#@#@~"));
        push_span(&mut r, lit(ArtTone::DeepOrange, "'~\"~"));
        push_span(&mut r, lit(ArtTone::FlameOrange, "  '"));
        assert(span_views(r@) =~= seq![
            (ArtTone::FlameOrange, "      '"@),
            (ArtTone::DeepOrange, "  ~\"~'"@),
            (ArtTone::EmberRed, "~@#@#@~"@),
            (ArtTone::DeepOrange, "'~\"~"@),
            (ArtTone::FlameOrange, "  '"@),
        ]);
    } else if frame == 2 {
        push_span(&mut r, lit(ArtTone::BrightYellow, "      ."));
        push_span(&mut r, lit(ArtTone::DeepOrange, "  \"~'~"));
        push_span(&mut r, lit(ArtTone::EmberRed, "*@#@#@*"));
        push_span(&mut r, lit(ArtTone::DeepOrange, "~'~\""));
        push_span(&mut r, lit(ArtTone::BrightYellow, "  ."));
        assert(span_views(r@) =~= seq![
            (ArtTone::BrightYellow, "      ."@),
            (ArtTone::DeepOrange, "  \"~'~"@),
            (ArtTone::EmberRed, "*@#@#@*"@),
            (ArtTone::DeepOrange, "~'~\""@),
            (ArtTone::BrightYellow, "  ."@),
        ]);
    } else {
        push_span(&mut r, lit(ArtTone::FlameOrange, "      '"));
        push_span(&mut r, lit(ArtTone::DeepOrange, "  ~'~\""));
        push_span(&mut r, lit(ArtTone::EmberRed, "~#@#@#~"));
        push_span(&mut r, lit(ArtTone::DeepOrange, "\"~'~"));
        push_span(&mut r, lit(ArtTone::FlameOrange, "  '"));
        assert(span_views(r@) =~= seq![
            (ArtTone::FlameOrange, "      '"@),
            (ArtTone::DeepOrange, "  ~'~\""@),
            (ArtTone::EmberRed, "~#@#@#~"@),
            (ArtTone::DeepOrange, "\"~'~"@),
            (ArtTone::FlameOrange, "  '"@),
        ]);
    }
    r
}

fn campfire_row_4_spans(frame: usize) -> (r: Vec<(ArtTone, String)>)
    ensures
        span_views(r@) == campfire_row_4(frame as nat),
        row_width(span_views(r@)) == campfire_row_width(frame as nat, 4),
{
    proof {
        reveal_strlit("    '");
        reveal_strlit("    `");
        reveal_strlit("  '");
        reveal_strlit("  ^~`~");
        reveal_strlit("  `");
        reveal_strlit("  `~^~");
        reveal_strlit("  ~^~`");
        reveal_strlit("  ~`~^");
        reveal_strlit("\"#@#@#@#\"");
        reveal_strlit("\"'#@#@#'\"");
        reveal_strlit("'\"@#@#@\"'");
        reveal_strlit("'@#@#@#@'");
        reveal_strlit("^~`~");
        reveal_strlit("`~^~");
        reveal_strlit("~^~`");
        reveal_strlit("~`~^");
    }
    let mut r: Vec<(ArtTone, String)> = Vec::new();
    if frame == 0 {
        push_span(&mut r, lit(ArtTone::FlameOrange, "    '"));
        push_span(&mut r, lit(ArtTone::DeepOrange, "  `~^~"));
        push_span(&mut r, lit(ArtTone::EmberRed, "'\"@#@#@\"'"));
        push_span(&mut r, lit(ArtTone::DeepOrange, "~^~`"));
        push_span(&mut r, lit(ArtTone::FlameOrange, "  '"));
        assert(span_views(r@) =~= seq![
            (ArtTone::FlameOrange, "    '"@),
            (ArtTone::DeepOrange, "  `~^~"@),
            (ArtTone::EmberRed, "'\"@#@#@\"'"@),
            (ArtTone::DeepOrange, "~^~`"@),
            (ArtTone::FlameOrange, "  '"@),
        ]);
    } else if frame == 1 {
        push_span(&mut r, lit(ArtTone::FlameOrange, "    `"));
        push_span(&mut r, lit(ArtTone::DeepOrange, "  ~^~`"));
        push_span(&mut r, lit(ArtTone::EmberRed, "\"'#@#@#'\""));
        push_span(&mut r, lit(ArtTone::DeepOrange, "`~^~"));
        push_span(&mut r, lit(ArtTone::FlameOrange, "  `"));
        assert(span_views(r@) =~= seq![
            (ArtTone::FlameOrange, "    `"@),
            (ArtTone::DeepOrange, "  ~^~`"@),
            (ArtTone::EmberRed, "\"'#@#@#'\""@),
            (ArtTone::DeepOrange, "`~^~"@),
            (ArtTone::FlameOrange, "  `"@),
        ]);
    } else if frame == 2 {
        push_span(&mut r, lit(ArtTone::FlameOrange, "    '"));
        push_span(&mut r, lit(ArtTone::DeepOrange, "  ^~`~"));
        push_span(&mut r, lit(ArtTone::EmberRed, "'@#@#@#@'"));
        push_span(&mut r, lit(ArtTone::DeepOrange, "~`~^"));
        push_span(&mut r, lit(ArtTone::FlameOrange, "  '"));
        assert(span_views(r@) =~= seq![
            (ArtTone::FlameOrange, "    '"@),
            (ArtTone::DeepOrange, "  ^~`~"@),
            (ArtTone::EmberRed, "'@#@#@#@'"@),
            (ArtTone::DeepOrange, "~`~^"@),
            (ArtTone::FlameOrange, "  '"@),
        ]);
    } else {
        push_span(&mut r, lit(ArtTone::FlameOrange, "    `"));
        push_span(&mut r, lit(ArtTone::DeepOrange, "  ~`~^"));
        push_span(&mut r, lit(ArtTone::EmberRed, "\"#@#@#@#\""));
        push_span(&mut r, lit(ArtTone::DeepOrange, "^~`~"));
        push_span(&mut r, lit(ArtTone::FlameOrange, "  `"));
        assert(span_views(r@) =~= seq![
            (ArtTone::FlameOrange, "    `"@),
            (ArtTone::DeepOrange, "  ~`~^"@),
            (ArtTone::EmberRed, "\"#@#@#@#\""@),
            (ArtTone::DeepOrange, "^~`~"@),
            (ArtTone::FlameOrange, "  `"@),
        ]);
    }
    r
}

fn campfire_row_5_spans(frame: usize) -> (r: Vec<(ArtTone, String)>)
    ensures
        span_views(r@) == campfire_row_5(frame as nat),
        row_width(span_views(r@)) == campfire_row_width(frame as nat, 5),
{
    proof {
        reveal_strlit("   ");
        reveal_strlit("\"#O#O#O#O#\"");
        reveal_strlit("\"'#O#O#O#'\"");
        reveal_strlit("'\"@#O#O#@\"'");
        reveal_strlit("'O#O#O#O#O'");
        reveal_strlit("'^~`~");
        reveal_strlit("'`~^~");
        reveal_strlit("'~^~`");
        reveal_strlit("'~`~^");
        reveal_strlit("^~`~'");
        reveal_strlit("`~^~'");
        reveal_strlit("~^~`'");
        reveal_strlit("~`~^'");
    }
    let mut r: Vec<(ArtTone, String)> = Vec::new();
    if frame == 0 {
        push_span(&mut r, lit(ArtTone::EmberRed, "   "));
        push_span(&mut r, lit(ArtTone::DeepOrange, "'~^~`"));
        push_span(&mut r, lit(ArtTone::EmberRed, "'\"@#O#O#@\"'"));
        push_span(&mut r, lit(ArtTone::DeepOrange, "`~^~'"));
        push_span(&mut r, lit(ArtTone::EmberRed, "   "));
        assert(span_views(r@) =~= seq![
            (ArtTone::EmberRed, "   "@),
            (ArtTone::DeepOrange, "'~^~`"@),
            (ArtTone::EmberRed, "'\"@#O#O#@\"'"@),
            (ArtTone::DeepOrange, "`~^~'"@),
            (ArtTone::EmberRed, "   "@),
        ]);
    } else if frame == 1 {
        push_span(&mut r, lit(ArtTone::EmberRed, "   "));
        push_span(&mut r, lit(ArtTone::DeepOrange, "~^~`'"));
        push_span(&mut r, lit(ArtTone::EmberRed, "\"'#O#O#O#'\""));
        push_span(&mut r, lit(ArtTone::DeepOrange, "'`~^~"));
        push_span(&mut r, lit(ArtTone::EmberRed, "   "));
        assert(span_views(r@) =~= seq![
            (ArtTone::EmberRed, "   "@),
            (ArtTone::DeepOrange, "~^~`'"@),
            (ArtTone::EmberRed, "\"'#O#O#O#'\""@),
            (ArtTone::DeepOrange, "'`~^~"@),
            (ArtTone::EmberRed, "   "@),
        ]);
    } else if frame == 2 {
        push_span(&mut r, lit(ArtTone::EmberRed, "   "));
        push_span(&mut r, lit(ArtTone::DeepOrange, "^~`~'"));
        push_span(&mut r, lit(ArtTone::EmberRed, "'O#O#O#O#O'"));
        push_span(&mut r, lit(ArtTone::DeepOrange, "'~`~^"));
        push_span(&mut r, lit(ArtTone::EmberRed, "   "));
        assert(span_views(r@) =~= seq![
            (ArtTone::EmberRed, "   "@),
            (ArtTone::DeepOrange, "^~`~'"@),
            (ArtTone::EmberRed, "'O#O#O#O#O'"@),
            (ArtTone::DeepOrange, "'~`~^"@),
            (ArtTone::EmberRed, "   "@),
        ]);
    } else {
        push_span(&mut r, lit(ArtTone::EmberRed, "   "));
        push_span(&mut r, lit(ArtTone::DeepOrange, "~`~^'"));
        push_span(&mut r, lit(ArtTone::EmberRed, "\"#O#O#O#O#\""));
        push_span(&mut r, lit(ArtTone::DeepOrange, "'^~`~"));
        push_span(&mut r, lit(ArtTone::EmberRed, "   "));
        assert(span_views(r@) =~= seq![
            (ArtTone::EmberRed, "   "@),
            (ArtTone::DeepOrange, "~`~^'"@),
            (ArtTone::EmberRed, "\"#O#O#O#O#\""@),
            (ArtTone::DeepOrange, "'^~`~"@),
            (ArtTone::EmberRed, "   "@),
        ]);
    }
    r
}

fn campfire_row_6_spans(frame: usize) -> (r: Vec<(ArtTone, String)>)
    ensures
        span_views(r@) == campfire_row_6(frame as nat),
        row_width(span_views(r@)) == campfire_row_width(frame as nat, 6),
{
    proof {
        reveal_strlit("   ");
        reveal_strlit("▄");
        reveal_strlit("█▄██▄");
        reveal_strlit("█▄██▄█");
        reveal_strlit("██▄██");
        reveal_strlit("██▄██▄");
        reveal_strlit("░▓");
        reveal_strlit("░▓░");
        reveal_strlit("▓░");
        reveal_strlit("▓░▓");
    }
    let mut r: Vec<(ArtTone, String)> = Vec::new();
    if frame == 0 {
        push_span(&mut r, lit(ArtTone::CoalBlack, "   "));
        push_span(&mut r, lit(ArtTone::CoalBlack, "▄"));
        push_span(&mut r, lit(ArtTone::EmberRed, "░▓"));
        push_span(&mut r, lit(ArtTone::CoalBlack, "█▄██▄█"));
        push_span(&mut r, lit(ArtTone::EmberRed, "▓░▓"));
        push_span(&mut r, lit(ArtTone::CoalBlack, "██▄██"));
        push_span(&mut r, lit(ArtTone::EmberRed, "▓░"));
        push_span(&mut r, lit(ArtTone::CoalBlack, "▄"));
        push_span(&mut r, lit(ArtTone::CoalBlack, "   "));
        assert(span_views(r@) =~= seq![
            (ArtTone::CoalBlack, "   "@),
            (ArtTone::CoalBlack, "▄"@),
            (ArtTone::EmberRed, "░▓"@),
            (ArtTone::CoalBlack, "█▄██▄█"@),
            (ArtTone::EmberRed, "▓░▓"@),
            (ArtTone::CoalBlack, "██▄██"@),
            (ArtTone::EmberRed, "▓░"@),
            (ArtTone::CoalBlack, "▄"@),
            (ArtTone::CoalBlack, "   "@),
        ]);
    } else if frame == 1 {
        push_span(&mut r, lit(ArtTone::CoalBlack, "   "));
        push_span(&mut r, lit(ArtTone::CoalBlack, "▄"));
        push_span(&mut r, lit(ArtTone::EmberRed, "▓░"));
        push_span(&mut r, lit(ArtTone::CoalBlack, "██▄██▄"));
        push_span(&mut r, lit(ArtTone::EmberRed, "░▓░"));
        push_span(&mut r, lit(ArtTone::CoalBlack, "█▄██▄"));
        push_span(&mut r, lit(ArtTone::EmberRed, "░▓"));
        push_span(&mut r, lit(ArtTone::CoalBlack, "▄"));
        push_span(&mut r, lit(ArtTone::CoalBlack, "   "));
        assert(span_views(r@) =~= seq![
            (ArtTone::CoalBlack, "   "@),
            (ArtTone::CoalBlack, "▄"@),
            (ArtTone::EmberRed, "▓░"@),
            (ArtTone::CoalBlack, "██▄██▄"@),
            (ArtTone::EmberRed, "░▓░"@),
            (ArtTone::CoalBlack, "█▄██▄"@),
            (ArtTone::EmberRed, "░▓"@),
            (ArtTone::CoalBlack, "▄"@),
            (ArtTone::CoalBlack, "   "@),
        ]);
    } else if frame == 2 {
        push_span(&mut r, lit(ArtTone::CoalBlack, "   "));
        push_span(&mut r, lit(ArtTone::CoalBlack, "▄"));
        push_span(&mut r, lit(ArtTone::EmberRed, "░▓"));
        push_span(&mut r, lit(ArtTone::CoalBlack, "█▄██▄█"));
        push_span(&mut r, lit(ArtTone::EmberRed, "▓░▓"));
        push_span(&mut r, lit(ArtTone::CoalBlack, "██▄██"));
        push_span(&mut r, lit(ArtTone::EmberRed, "▓░"));
        push_span(&mut r, lit(ArtTone::CoalBlack, "▄"));
        push_span(&mut r, lit(ArtTone::CoalBlack, "   "));
        assert(span_views(r@) =~= seq![
            (ArtTone::CoalBlack, "   "@),
            (ArtTone::CoalBlack, "▄"@),
            (ArtTone::EmberRed, "░▓"@),
            (ArtTone::CoalBlack, "█▄██▄█"@),
            (ArtTone::EmberRed, "▓░▓"@),
            (ArtTone::CoalBlack, "██▄██"@),
            (ArtTone::EmberRed, "▓░"@),
            (ArtTone::CoalBlack, "▄"@),
            (ArtTone::CoalBlack, "   "@),
        ]);
    } else {
        push_span(&mut r, lit(ArtTone::CoalBlack, "   "));
        push_span(&mut r, lit(ArtTone::CoalBlack, "▄"));
        push_span(&mut r, lit(ArtTone::EmberRed, "▓░"));
        push_span(&mut r, lit(ArtTone::CoalBlack, "██▄██▄"));
        push_span(&mut r, lit(ArtTone::EmberRed, "░▓░"));
        push_span(&mut r, lit(ArtTone::CoalBlack, "█▄██▄"));
        push_span(&mut r, lit(ArtTone::EmberRed, "░▓"));
        push_span(&mut r, lit(ArtTone::CoalBlack, "▄"));
        push_span(&mut r, lit(ArtTone::CoalBlack, "   "));
        assert(span_views(r@) =~= seq![
            (ArtTone::CoalBlack, "   "@),
            (ArtTone::CoalBlack, "▄"@),
            (ArtTone::EmberRed, "▓░"@),
            (ArtTone::CoalBlack, "██▄██▄"@),
            (ArtTone::EmberRed, "░▓░"@),
            (ArtTone::CoalBlack, "█▄██▄"@),
            (ArtTone::EmberRed, "░▓"@),
            (ArtTone::CoalBlack, "▄"@),
            (ArtTone::CoalBlack, "   "@),
        ]);
    }
    r
}

fn campfire_row_7_spans(frame: usize) -> (r: Vec<(ArtTone, String)>)
    ensures
        span_views(r@) == campfire_row_7(frame as nat),
        row_width(span_views(r@)) == campfire_row_width(frame as nat, 7),
{
    proof {
        reveal_strlit(" \\");
        reveal_strlit("/ ");
        reveal_strlit("▄▄▄▄▄▄▄▄▄▄▄▄▄▄▄▄▄▄▄▄▄▄▄");
    }
    let mut r: Vec<(ArtTone, String)> = Vec::new();
    push_span(&mut r, lit(ArtTone::DarkWalnut, " \\"));
    push_span(&mut r, lit(ArtTone::WoodBrown, "▄▄▄▄▄▄▄▄▄▄▄▄▄▄▄▄▄▄▄▄▄▄▄"));
    push_span(&mut r, lit(ArtTone::DarkWalnut, "/ "));
    assert(span_views(r@) =~= seq![
        (ArtTone::DarkWalnut, " \\"@),
        (ArtTone::WoodBrown, "▄▄▄▄▄▄▄▄▄▄▄▄▄▄▄▄▄▄▄▄▄▄▄"@),
        (ArtTone::DarkWalnut, "/ "@),
    ]);
    r
}

fn campfire_row_8_spans(frame: usize) -> (r: Vec<(ArtTone, String)>)
    ensures
        span_views(r@) == campfire_row_8(frame as nat),
        row_width(span_views(r@)) == campfire_row_width(frame as nat, 8),
{
    proof {
        reveal_strlit("  /");
        reveal_strlit("\\  ");
        reveal_strlit("▀▀▀▀▀▀▀▀▀▀▀▀▀▀▀▀▀▀▀▀▀");
    }
    let mut r: Vec<(ArtTone, String)> = Vec::new();
    push_span(&mut r, lit(ArtTone::DarkWalnut, "  /"));
    push_span(&mut r, lit(ArtTone::WoodBrown, "▀▀▀▀▀▀▀▀▀▀▀▀▀▀▀▀▀▀▀▀▀"));
    push_span(&mut r, lit(ArtTone::DarkWalnut, "\\  "));
    assert(span_views(r@) =~= seq![
        (ArtTone::DarkWalnut, "  /"@),
        (ArtTone::WoodBrown, "▀▀▀▀▀▀▀▀▀▀▀▀▀▀▀▀▀▀▀▀▀"@),
        (ArtTone::DarkWalnut, "\\  "@),
    ]);
    r
}

fn campfire_row_9_spans(frame: usize) -> (r: Vec<(ArtTone, String)>)
    ensures
        span_views(r@) == campfire_row_9(frame as nat),
        row_width(span_views(r@)) == campfire_row_width(frame as nat, 9),
{
    proof {
        reveal_strlit(".");
        reveal_strlit("O");
        reveal_strlit("o");
    }
    let mut r: Vec<(ArtTone, String)> = Vec::new();
    push_span(&mut r, lit(ArtTone::DarkStone, "."));
    push_span(&mut r, lit(ArtTone::Granite, "o"));
    push_span(&mut r, lit(ArtTone::DarkStone, "O"));
    push_span(&mut r, lit(ArtTone::Granite, "o"));
    push_span(&mut r, lit(ArtTone::DarkStone, "."));
    push_span(&mut r, lit(ArtTone::Granite, "O"));
    push_span(&mut r, lit(ArtTone::DarkStone, "o"));
    push_span(&mut r, lit(ArtTone::Granite, "."));
    push_span(&mut r, lit(ArtTone::DarkStone, "O"));
    push_span(&mut r, lit(ArtTone::Granite, "o"));
    push_span(&mut r, lit(ArtTone::DarkStone, "."));
    push_span(&mut r, lit(ArtTone::Granite, "O"));
    push_span(&mut r, lit(ArtTone::DarkStone, "o"));
    push_span(&mut r, lit(ArtTone::Granite, "."));
    push_span(&mut r, lit(ArtTone::DarkStone, "O"));
    push_span(&mut r, lit(ArtTone::Granite, "o"));
    push_span(&mut r, lit(ArtTone::DarkStone, "."));
    push_span(&mut r, lit(ArtTone::Granite, "O"));
    push_span(&mut r, lit(ArtTone::DarkStone, "o"));
    push_span(&mut r, lit(ArtTone::Granite, "."));
    push_span(&mut r, lit(ArtTone::DarkStone, "O"));
    push_span(&mut r, lit(ArtTone::Granite, "o"));
    push_span(&mut r, lit(ArtTone::DarkStone, "."));
    push_span(&mut r, lit(ArtTone::Granite, "O"));
    push_span(&mut r, lit(ArtTone::DarkStone, "o"));
    assert(span_views(r@) =~= seq![
        (ArtTone::DarkStone, "."@),
        (ArtTone::Granite, "o"@),
        (ArtTone::DarkStone, "O"@),
        (ArtTone::Granite, "o"@),
        (ArtTone::DarkStone, "."@),
        (ArtTone::Granite, "O"@),
        (ArtTone::DarkStone, "o"@),
        (ArtTone::Granite, "."@),
        (ArtTone::DarkStone, "O"@),
        (ArtTone::Granite, "o"@),
        (ArtTone::DarkStone, "."@),
        (ArtTone::Granite, "O"@),
        (ArtTone::DarkStone, "o"@),
        (ArtTone::Granite, "."@),
        (ArtTone::DarkStone, "O"@),
        (ArtTone::Granite, "o"@),
        (ArtTone::DarkStone, "."@),
        (ArtTone::Granite, "O"@),
        (ArtTone::DarkStone, "o"@),
        (ArtTone::Granite, "."@),
        (ArtTone::DarkStone, "O"@),
        (ArtTone::Granite, "o"@),
        (ArtTone::DarkStone, "."@),
        (ArtTone::Granite, "O"@),
        (ArtTone::DarkStone, "o"@),
    ]);
    r
}

/// The campfire at animation `frame` (0 to 3): ten rows, each at most as
/// wide as `campfire_width()` (27 columns); the sparks that the design
/// flings past that width are cut.
pub fn campfire_art(frame: usize) -> (rows: Vec<Vec<(ArtTone, String)>>)
    requires
        frame < 4,
    ensures
        art_views(rows@) == spec_campfire_art(frame as nat),
        rows@.len() == 10,
        forall|i: int| 0 <= i < rows@.len() ==> #[trigger] row_width(art_views(rows@)[i]) <= campfire_columns(),
{
    let mut rows: Vec<Vec<(ArtTone, String)>> = Vec::new();
    rows.push(campfire_row_0_spans(frame));
    rows.push(campfire_row_1_spans(frame));
    rows.push(campfire_row_2_spans(frame));
    rows.push(campfire_row_3_spans(frame));
    rows.push(campfire_row_4_spans(frame));
    rows.push(campfire_row_5_spans(frame));
    rows.push(campfire_row_6_spans(frame));
    rows.push(campfire_row_7_spans(frame));
    rows.push(campfire_row_8_spans(frame));
    rows.push(campfire_row_9_spans(frame));
    assert(art_views(rows@) =~= spec_campfire_art(frame as nat));
    rows
}

} // verus!
