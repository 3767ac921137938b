//! The alchemist's bubbling flask, in four animation frames.
use vstd::prelude::*;

use super::{art_views, lit, pad, push_span, row_width, span_views, spaces, ArtTone};

verus! {

/// Row 0 of the flask art.
pub open spec fn flask_row_0(padding: nat, frame: nat) -> Seq<(ArtTone, Seq<char>)> {
    if frame == 0 {
        seq![
            (ArtTone::Plain, spaces((padding + 10) as nat)),
            (ArtTone::VaporCyan, "~"@),
            (ArtTone::PaleLavender, "  '"@),
            (ArtTone::VaporCyan, "  ~"@),
        ]
    } else if frame == 1 {
        seq![
            (ArtTone::Plain, spaces((padding + 10) as nat)),
            (ArtTone::PaleLavender, "'"@),
            (ArtTone::VaporCyan, "  ~"@),
            (ArtTone::PaleLavender, "  '"@),
        ]
    } else if frame == 2 {
        seq![
            (ArtTone::Plain, spaces((padding + 10) as nat)),
            (ArtTone::VaporCyan, "~"@),
            (ArtTone::PaleLavender, "  `"@),
            (ArtTone::VaporCyan, "  ~"@),
        ]
    } else {
        seq![
            (ArtTone::Plain, spaces((padding + 10) as nat)),
            (ArtTone::PaleLavender, "`"@),
            (ArtTone::VaporCyan, "  ~"@),
            (ArtTone::PaleLavender, "  `"@),
        ]
    }
}

/// Row 1 of the flask art.
pub open spec fn flask_row_1(padding: nat, frame: nat) -> Seq<(ArtTone, Seq<char>)> {
    if frame == 0 {
        seq![
            (ArtTone::Plain, spaces((padding + 8) as nat)),
            (ArtTone::PaleLavender, "'"@),
            (ArtTone::VaporCyan, "  ~"@),
            (ArtTone::PaleLavender, "  `"@),
            (ArtTone::VaporCyan, "  ~"@),
        ]
    } else if frame == 1 {
        seq![
            (ArtTone::Plain, spaces((padding + 8) as nat)),
            (ArtTone::VaporCyan, "~"@),
            (ArtTone::PaleLavender, "  `"@),
            (ArtTone::VaporCyan, "  ~"@),
            (ArtTone::PaleLavender, "  '"@),
        ]
    } else if frame == 2 {
        seq![
            (ArtTone::Plain, spaces((padding + 8) as nat)),
            (ArtTone::PaleLavender, "`"@),
            (ArtTone::VaporCyan, "  ~"@),
            (ArtTone::PaleLavender, "  '"@),
            (ArtTone::VaporCyan, "  ~"@),
        ]
    } else {
        seq![
            (ArtTone::Plain, spaces((padding + 8) as nat)),
            (ArtTone::VaporCyan, "~"@),
            (ArtTone::PaleLavender, "  '"@),
            (ArtTone::VaporCyan, "  ~"@),
            (ArtTone::PaleLavender, "  `"@),
        ]
    }
}

/// Row 2 of the flask art.
pub open spec fn flask_row_2(padding: nat, frame: nat) -> Seq<(ArtTone, Seq<char>)> {
    if frame == 0 {
        seq![
            (ArtTone::Plain, spaces((padding + 8) as nat)),
            (ArtTone::PaleLavender, "╭"@),
            (ArtTone::DarkPurple, "─"@),
            (ArtTone::PaleLavender, "─"@),
            (ArtTone::DarkPurple, "─"@),
            (ArtTone::PaleLavender, "─"@),
            (ArtTone::DarkPurple, "─"@),
            (ArtTone::PaleLavender, "─"@),
            (ArtTone::DarkPurple, "─"@),
            (ArtTone::PaleLavender, "╮"@),
        ]
    } else if frame == 1 {
        seq![
            (ArtTone::Plain, spaces((padding + 8) as nat)),
            (ArtTone::PaleLavender, "╭"@),
            (ArtTone::DarkPurple, "─"@),
            (ArtTone::PaleLavender, "─"@),
            (ArtTone::DarkPurple, "─"@),
            (ArtTone::PaleLavender, "─"@),
            (ArtTone::DarkPurple, "─"@),
            (ArtTone::PaleLavender, "─"@),
            (ArtTone::DarkPurple, "─"@),
            (ArtTone::PaleLavender, "╮"@),
        ]
    } else if frame == 2 {
        seq![
            (ArtTone::Plain, spaces((padding + 8) as nat)),
            (ArtTone::PaleLavender, "╭"@),
            (ArtTone::PaleLavender, "─"@),
            (ArtTone::DarkPurple, "─"@),
            (ArtTone::PaleLavender, "─"@),
            (ArtTone::DarkPurple, "─"@),
            (ArtTone::PaleLavender, "─"@),
            (ArtTone::DarkPurple, "─"@),
            (ArtTone::PaleLavender, "─"@),
            (ArtTone::PaleLavender, "╮"@),
        ]
    } else {
        seq![
            (ArtTone::Plain, spaces((padding + 8) as nat)),
            (ArtTone::PaleLavender, "╭"@),
            (ArtTone::PaleLavender, "─"@),
            (ArtTone::DarkPurple, "─"@),
            (ArtTone::PaleLavender, "─"@),
            (ArtTone::DarkPurple, "─"@),
            (ArtTone::PaleLavender, "─"@),
            (ArtTone::DarkPurple, "─"@),
            (ArtTone::PaleLavender, "─"@),
            (ArtTone::PaleLavender, "╮"@),
        ]
    }
}

/// Row 3 of the flask art.
pub open spec fn flask_row_3(padding: nat, frame: nat) -> Seq<(ArtTone, Seq<char>)> {
    if frame == 0 {
        seq![
            (ArtTone::Plain, spaces((padding + 8) as nat)),
            (ArtTone::PaleLavender, "│"@),
            (ArtTone::VaporCyan, " ~ "@),
            (ArtTone::PaleLavender, "'"@),
            (ArtTone::VaporCyan, " ~ "@),
            (ArtTone::PaleLavender, "│"@),
        ]
    } else if frame == 1 {
        seq![
            (ArtTone::Plain, spaces((padding + 8) as nat)),
            (ArtTone::PaleLavender, "│"@),
            (ArtTone::PaleLavender, " ' "@),
            (ArtTone::VaporCyan, "~"@),
            (ArtTone::PaleLavender, " ` "@),
            (ArtTone::PaleLavender, "│"@),
        ]
    } else if frame == 2 {
        seq![
            (ArtTone::Plain, spaces((padding + 8) as nat)),
            (ArtTone::PaleLavender, "│"@),
            (ArtTone::PaleLavender, " ` "@),
            (ArtTone::VaporCyan, "~"@),
            (ArtTone::PaleLavender, " ' "@),
            (ArtTone::PaleLavender, "│"@),
        ]
    } else {
        seq![
            (ArtTone::Plain, spaces((padding + 8) as nat)),
            (ArtTone::PaleLavender, "│"@),
            (ArtTone::VaporCyan, " ~ "@),
            (ArtTone::PaleLavender, "`"@),
            (ArtTone::VaporCyan, " ~ "@),
            (ArtTone::PaleLavender, "│"@),
        ]
    }
}

/// Row 4 of the flask art.
pub open spec fn flask_row_4(padding: nat, frame: nat) -> Seq<(ArtTone, Seq<char>)> {
    seq![
        (ArtTone::Plain, spaces((padding + 6) as nat)),
        (ArtTone::PaleLavender, "/"@),
        (ArtTone::Plain, "            "@),
        (ArtTone::PaleLavender, "\\"@),
    ]
}

/// Row 5 of the flask art.
pub open spec fn flask_row_5(padding: nat, frame: nat) -> Seq<(ArtTone, Seq<char>)> {
    if frame == 0 {
        seq![
            (ArtTone::Plain, spaces((padding + 4) as nat)),
            (ArtTone::PaleLavender, "/"@),
            (ArtTone::BubbleGreen, "  o"@),
            (ArtTone::MysticGlow, "  ~~~"@),
            (ArtTone::BrightViolet, "~~~"@),
            (ArtTone::BubbleGreen, "  o  "@),
            (ArtTone::PaleLavender, "\\"@),
        ]
    } else if frame == 1 {
        seq![
            (ArtTone::Plain, spaces((padding + 4) as nat)),
            (ArtTone::PaleLavender, "/"@),
            (ArtTone::BubbleGreen, " o "@),
            (ArtTone::MysticGlow, " ~~~~"@),
            (ArtTone::BrightViolet, "~~~"@),
            (ArtTone::BubbleGreen, " o   "@),
            (ArtTone::PaleLavender, "\\"@),
        ]
    } else if frame == 2 {
        seq![
            (ArtTone::Plain, spaces((padding + 4) as nat)),
            (ArtTone::PaleLavender, "/"@),
            (ArtTone::BubbleGreen, "   o"@),
            (ArtTone::MysticGlow, " ~~~"@),
            (ArtTone::BrightViolet, "~~~~"@),
            (ArtTone::BubbleGreen, " o   "@),
            (ArtTone::PaleLavender, "\\"@),
        ]
    } else {
        seq![
            (ArtTone::Plain, spaces((padding + 4) as nat)),
            (ArtTone::PaleLavender, "/"@),
            (ArtTone::BubbleGreen, "  o "@),
            (ArtTone::MysticGlow, "~~~~"@),
            (ArtTone::BrightViolet, "~~~"@),
            (ArtTone::BubbleGreen, "  o  "@),
            (ArtTone::PaleLavender, "\\"@),
        ]
    }
}

/// Row 6 of the flask art.
pub open spec fn flask_row_6(padding: nat, frame: nat) -> Seq<(ArtTone, Seq<char>)> {
    if frame == 0 {
        seq![
            (ArtTone::Plain, spaces((padding + 2) as nat)),
            (ArtTone::PaleLavender, "/"@),
            (ArtTone::BubbleGreen, " o"@),
            (ArtTone::BrightViolet, "  ▓▓▓▓▓▓▓▓▓▓▓▓"@),
            (ArtTone::BubbleGreen, "  o "@),
            (ArtTone::PaleLavender, "\\"@),
        ]
    } else if frame == 1 {
        seq![
            (ArtTone::Plain, spaces((padding + 2) as nat)),
            (ArtTone::PaleLavender, "/"@),
            (ArtTone::BubbleGreen, "  o"@),
            (ArtTone::BrightViolet, " ▓▓▓▓▓▓▓▓▓▓▓▓"@),
            (ArtTone::BubbleGreen, " o  "@),
            (ArtTone::PaleLavender, "\\"@),
        ]
    } else if frame == 2 {
        seq![
            (ArtTone::Plain, spaces((padding + 2) as nat)),
            (ArtTone::PaleLavender, "/"@),
            (ArtTone::BubbleGreen, "   o"@),
            (ArtTone::BrightViolet, "▓▓▓▓▓▓▓▓▓▓▓▓"@),
            (ArtTone::BubbleGreen, "o   "@),
            (ArtTone::PaleLavender, "\\"@),
        ]
    } else {
        seq![
            (ArtTone::Plain, spaces((padding + 2) as nat)),
            (ArtTone::PaleLavender, "/"@),
            (ArtTone::BubbleGreen, " o "@),
            (ArtTone::BrightViolet, " ▓▓▓▓▓▓▓▓▓▓▓▓"@),
            (ArtTone::BubbleGreen, "  o "@),
            (ArtTone::PaleLavender, "\\"@),
        ]
    }
}

/// Row 7 of the flask art.
pub open spec fn flask_row_7(padding: nat, frame: nat) -> Seq<(ArtTone, Seq<char>)> {
    if frame == 0 {
        seq![
            (ArtTone::Plain, spaces((padding + 0) as nat)),
            (ArtTone::PaleLavender, "|"@),
            (ArtTone::MysticPurple, "  "@),
            (ArtTone::BubbleGreen, "o"@),
            (ArtTone::MysticPurple, " ▓▓▓▓▓▓▓▓▓▓▓▓▓▓"@),
            (ArtTone::BubbleGreen, " o  "@),
            (ArtTone::PaleLavender, "|"@),
        ]
    } else if frame == 1 {
        seq![
            (ArtTone::Plain, spaces((padding + 0) as nat)),
            (ArtTone::PaleLavender, "|"@),
            (ArtTone::BubbleGreen, " o"@),
            (ArtTone::MysticPurple, "  ▓▓▓▓▓▓▓▓▓▓▓▓▓▓"@),
            (ArtTone::BubbleGreen, "  o "@),
            (ArtTone::PaleLavender, "|"@),
        ]
    } else if frame == 2 {
        seq![
            (ArtTone::Plain, spaces((padding + 0) as nat)),
            (ArtTone::PaleLavender, "|"@),
            (ArtTone::MysticPurple, "   "@),
            (ArtTone::BubbleGreen, "o"@),
            (ArtTone::MysticPurple, "▓▓▓▓▓▓▓▓▓▓▓▓▓▓"@),
            (ArtTone::BubbleGreen, "o   "@),
            (ArtTone::PaleLavender, "|"@),
        ]
    } else {
        seq![
            (ArtTone::Plain, spaces((padding + 0) as nat)),
            (ArtTone::PaleLavender, "|"@),
            (ArtTone::BubbleGreen, "  o"@),
            (ArtTone::MysticPurple, " ▓▓▓▓▓▓▓▓▓▓▓▓▓▓"@),
            (ArtTone::BubbleGreen, " o  "@),
            (ArtTone::PaleLavender, "|"@),
        ]
    }
}

/// Row 8 of the flask art.
pub open spec fn flask_row_8(padding: nat, frame: nat) -> Seq<(ArtTone, Seq<char>)> {
    seq![
        (ArtTone::Plain, spaces((padding + 0) as nat)),
        (ArtTone::PaleLavender, "|"@),
        (ArtTone::DarkPurple, "  ▓▓▓▓▓▓▓▓▓▓▓▓▓▓▓▓▓▓  "@),
        (ArtTone::PaleLavender, "|"@),
    ]
}

/// Row 9 of the flask art.
pub open spec fn flask_row_9(padding: nat, frame: nat) -> Seq<(ArtTone, Seq<char>)> {
    seq![
        (ArtTone::Plain, spaces((padding + 0) as nat)),
        (ArtTone::PaleLavender, " \\"@),
        (ArtTone::DeepViolet, "▓▓▓▓▓▓▓▓▓▓▓▓▓▓▓▓▓▓▓▓"@),
        (ArtTone::PaleLavender, "/ "@),
    ]
}

/// Row 10 of the flask art.
pub open spec fn flask_row_10(padding: nat, frame: nat) -> Seq<(ArtTone, Seq<char>)> {
    seq![
        (ArtTone::Plain, spaces((padding + 2) as nat)),
        (ArtTone::PaleLavender, "╰"@),
        (ArtTone::DarkPurple, "──────────────────"@),
        (ArtTone::PaleLavender, "╯"@),
    ]
}

/// Row 11 of the flask art.
pub open spec fn flask_row_11(padding: nat, frame: nat) -> Seq<(ArtTone, Seq<char>)> {
    seq![
        (ArtTone::Plain, spaces((padding + 4) as nat)),
        (ArtTone::DarkStone, "══════════════"@),
    ]
}

/// The width of each row of the flask art, in columns.
pub open spec fn flask_row_width(padding: nat, frame: nat, row: int) -> nat {
    if row == 0 {
        (padding + 17) as nat
    } else if row == 1 {
        (padding + 18) as nat
    } else if row == 2 {
        (padding + 17) as nat
    } else if row == 3 {
        (padding + 17) as nat
    } else if row == 4 {
        (padding + 20) as nat
    } else if row == 5 {
        if frame == 0 {
            (padding + 22) as nat
        } else if frame == 1 {
            (padding + 22) as nat
        } else if frame == 2 {
            (padding + 23) as nat
        } else {
            (padding + 22) as nat
        }
    } else if row == 6 {
        (padding + 24) as nat
    } else if row == 7 {
        (padding + 24) as nat
    } else if row == 8 {
        (padding + 24) as nat
    } else if row == 9 {
        (padding + 24) as nat
    } else if row == 10 {
        (padding + 22) as nat
    } else if row == 11 {
        (padding + 18) as nat
    } else {
        0
    }
}

/// The flask at animation `frame`, shifted right by `padding` columns: vapour, the neck, the bubbling liquid, the bottom and the stand.
pub open spec fn spec_flask_art(padding: nat, frame: nat) -> Seq<Seq<(ArtTone, Seq<char>)>> {
    seq![
        flask_row_0(padding, frame),
        flask_row_1(padding, frame),
        flask_row_2(padding, frame),
        flask_row_3(padding, frame),
        flask_row_4(padding, frame),
        flask_row_5(padding, frame),
        flask_row_6(padding, frame),
        flask_row_7(padding, frame),
        flask_row_8(padding, frame),
        flask_row_9(padding, frame),
        flask_row_10(padding, frame),
        flask_row_11(padding, frame),
    ]
}

fn flask_row_0_spans(padding: usize, frame: usize) -> (r: Vec<(ArtTone, String)>)
    requires
        padding <= usize::MAX - 10,

    ensures
        span_views(r@) == flask_row_0(padding as nat, frame as nat),
        row_width(span_views(r@)) == flask_row_width(padding as nat, frame as nat, 0),
{
    proof {
        reveal_strlit("  '");
        reveal_strlit("  `");
        reveal_strlit("  ~");
        reveal_strlit("'");
        reveal_strlit("`");
        reveal_strlit("~");
    }
    let mut r: Vec<(ArtTone, String)> = Vec::new();
    if frame == 0 {
        push_span(&mut r, pad(padding + 10));
        push_span(&mut r, lit(ArtTone::VaporCyan, "~"));
        push_span(&mut r, lit(ArtTone::PaleLavender, "  '"));
        push_span(&mut r, lit(ArtTone::VaporCyan, "  ~"));
        assert(span_views(r@) =~= seq![
            (ArtTone::Plain, spaces((padding + 10) as nat)),
            (ArtTone::VaporCyan, "~"@),
            (ArtTone::PaleLavender, "  '"@),
            (ArtTone::VaporCyan, "  ~"@),
        ]);
    } else if frame == 1 {
        push_span(&mut r, pad(padding + 10));
        push_span(&mut r, lit(ArtTone::PaleLavender, "'"));
        push_span(&mut r, lit(ArtTone::VaporCyan, "  ~"));
        push_span(&mut r, lit(ArtTone::PaleLavender, "  '"));
        assert(span_views(r@) =~= seq![
            (ArtTone::Plain, spaces((padding + 10) as nat)),
            (ArtTone::PaleLavender, "'"@),
            (ArtTone::VaporCyan, "  ~"@),
            (ArtTone::PaleLavender, "  '"@),
        ]);
    } else if frame == 2 {
        push_span(&mut r, pad(padding + 10));
        push_span(&mut r, lit(ArtTone::VaporCyan, "~"));
        push_span(&mut r, lit(ArtTone::PaleLavender, "  `"));
        push_span(&mut r, lit(ArtTone::VaporCyan, "  ~"));
        assert(span_views(r@) =~= seq![
            (ArtTone::Plain, spaces((padding + 10) as nat)),
            (ArtTone::VaporCyan, "~"@),
            (ArtTone::PaleLavender, "  `"@),
            (ArtTone::VaporCyan, "  ~"@),
        ]);
    } else {
        push_span(&mut r, pad(padding + 10));
        push_span(&mut r, lit(ArtTone::PaleLavender, "`"));
        push_span(&mut r, lit(ArtTone::VaporCyan, "  ~"));
        push_span(&mut r, lit(ArtTone::PaleLavender, "  `"));
        assert(span_views(r@) =~= seq![
            (ArtTone::Plain, spaces((padding + 10) as nat)),
            (ArtTone::PaleLavender, "`"@),
            (ArtTone::VaporCyan, "  ~"@),
            (ArtTone::PaleLavender, "  `"@),
        ]);
    }
    r
}

fn flask_row_1_spans(padding: usize, frame: usize) -> (r: Vec<(ArtTone, String)>)
    requires
        padding <= usize::MAX - 10,

    ensures
        span_views(r@) == flask_row_1(padding as nat, frame as nat),
        row_width(span_views(r@)) == flask_row_width(padding as nat, frame as nat, 1),
{
    proof {
        reveal_strlit("  '");
        reveal_strlit("  `");
        reveal_strlit("  ~");
        reveal_strlit("'");
        reveal_strlit("`");
        reveal_strlit("~");
    }
    let mut r: Vec<(ArtTone, String)> = Vec::new();
    if frame == 0 {
        push_span(&mut r, pad(padding + 8));
        push_span(&mut r, lit(ArtTone::PaleLavender, "'"));
        push_span(&mut r, lit(ArtTone::VaporCyan, "  ~"));
        push_span(&mut r, lit(ArtTone::PaleLavender, "  `"));
        push_span(&mut r, lit(ArtTone::VaporCyan, "  ~"));
        assert(span_views(r@) =~= seq![
            (ArtTone::Plain, spaces((padding + 8) as nat)),
            (ArtTone::PaleLavender, "'"@),
            (ArtTone::VaporCyan, "  ~"@),
            (ArtTone::PaleLavender, "  `"@),
            (ArtTone::VaporCyan, "  ~"@),
        ]);
    } else if frame == 1 {
        push_span(&mut r, pad(padding + 8));
        push_span(&mut r, lit(ArtTone::VaporCyan, "~"));
        push_span(&mut r, lit(ArtTone::PaleLavender, "  `"));
        push_span(&mut r, lit(ArtTone::VaporCyan, "  ~"));
        push_span(&mut r, lit(ArtTone::PaleLavender, "  '"));
        assert(span_views(r@) =~= seq![
            (ArtTone::Plain, spaces((padding + 8) as nat)),
            (ArtTone::VaporCyan, "~"@),
            (ArtTone::PaleLavender, "  `"@),
            (ArtTone::VaporCyan, "  ~"@),
            (ArtTone::PaleLavender, "  '"@),
        ]);
    } else if frame == 2 {
        push_span(&mut r, pad(padding + 8));
        push_span(&mut r, lit(ArtTone::PaleLavender, "`"));
        push_span(&mut r, lit(ArtTone::VaporCyan, "  ~"));
        push_span(&mut r, lit(ArtTone::PaleLavender, "  '"));
        push_span(&mut r, lit(ArtTone::VaporCyan, "  ~"));
        assert(span_views(r@) =~= seq![
            (ArtTone::Plain, spaces((padding + 8) as nat)),
            (ArtTone::PaleLavender, "`"@),
            (ArtTone::VaporCyan, "  ~"@),
            (ArtTone::PaleLavender, "  '"@),
            (ArtTone::VaporCyan, "  ~"@),
        ]);
    } else {
        push_span(&mut r, pad(padding + 8));
        push_span(&mut r, lit(ArtTone::VaporCyan, "~"));
        push_span(&mut r, lit(ArtTone::PaleLavender, "  '"));
        push_span(&mut r, lit(ArtTone::VaporCyan, "  ~"));
        push_span(&mut r, lit(ArtTone::PaleLavender, "  `"));
        assert(span_views(r@) =~= seq![
            (ArtTone::Plain, spaces((padding + 8) as nat)),
            (ArtTone::VaporCyan, "~"@),
            (ArtTone::PaleLavender, "  '"@),
            (ArtTone::VaporCyan, "  ~"@),
            (ArtTone::PaleLavender, "  `"@),
        ]);
    }
    r
}

fn flask_row_2_spans(padding: usize, frame: usize) -> (r: Vec<(ArtTone, String)>)
    requires
        padding <= usize::MAX - 10,

    ensures
        span_views(r@) == flask_row_2(padding as nat, frame as nat),
        row_width(span_views(r@)) == flask_row_width(padding as nat, frame as nat, 2),
{
    proof {
        reveal_strlit("─");
        reveal_strlit("╭");
        reveal_strlit("╮");
    }
    let mut r: Vec<(ArtTone, String)> = Vec::new();
    if frame == 0 {
        push_span(&mut r, pad(padding + 8));
        push_span(&mut r, lit(ArtTone::PaleLavender, "╭"));
        push_span(&mut r, lit(ArtTone::DarkPurple, "─"));
        push_span(&mut r, lit(ArtTone::PaleLavender, "─"));
        push_span(&mut r, lit(ArtTone::DarkPurple, "─"));
        push_span(&mut r, lit(ArtTone::PaleLavender, "─"));
        push_span(&mut r, lit(ArtTone::DarkPurple, "─"));
        push_span(&mut r, lit(ArtTone::PaleLavender, "─"));
        push_span(&mut r, lit(ArtTone::DarkPurple, "─"));
        push_span(&mut r, lit(ArtTone::PaleLavender, "╮"));
        assert(span_views(r@) =~= seq![
            (ArtTone::Plain, spaces((padding + 8) as nat)),
            (ArtTone::PaleLavender, "╭"@),
            (ArtTone::DarkPurple, "─"@),
            (ArtTone::PaleLavender, "─"@),
            (ArtTone::DarkPurple, "─"@),
            (ArtTone::PaleLavender, "─"@),
            (ArtTone::DarkPurple, "─"@),
            (ArtTone::PaleLavender, "─"@),
            (ArtTone::DarkPurple, "─"@),
            (ArtTone::PaleLavender, "╮"@),
        ]);
    } else if frame == 1 {
        push_span(&mut r, pad(padding + 8));
        push_span(&mut r, lit(ArtTone::PaleLavender, "╭"));
        push_span(&mut r, lit(ArtTone::DarkPurple, "─"));
        push_span(&mut r, lit(ArtTone::PaleLavender, "─"));
        push_span(&mut r, lit(ArtTone::DarkPurple, "─"));
        push_span(&mut r, lit(ArtTone::PaleLavender, "─"));
        push_span(&mut r, lit(ArtTone::DarkPurple, "─"));
        push_span(&mut r, lit(ArtTone::PaleLavender, "─"));
        push_span(&mut r, lit(ArtTone::DarkPurple, "─"));
        push_span(&mut r, lit(ArtTone::PaleLavender, "╮"));
        assert(span_views(r@) =~= seq![
            (ArtTone::Plain, spaces((padding + 8) as nat)),
            (ArtTone::PaleLavender, "╭"@),
            (ArtTone::DarkPurple, "─"@),
            (ArtTone::PaleLavender, "─"@),
            (ArtTone::DarkPurple, "─"@),
            (ArtTone::PaleLavender, "─"@),
            (ArtTone::DarkPurple, "─"@),
            (ArtTone::PaleLavender, "─"@),
            (ArtTone::DarkPurple, "─"@),
            (ArtTone::PaleLavender, "╮"@),
        ]);
    } else if frame == 2 {
        push_span(&mut r, pad(padding + 8));
        push_span(&mut r, lit(ArtTone::PaleLavender, "╭"));
        push_span(&mut r, lit(ArtTone::PaleLavender, "─"));
        push_span(&mut r, lit(ArtTone::DarkPurple, "─"));
        push_span(&mut r, lit(ArtTone::PaleLavender, "─"));
        push_span(&mut r, lit(ArtTone::DarkPurple, "─"));
        push_span(&mut r, lit(ArtTone::PaleLavender, "─"));
        push_span(&mut r, lit(ArtTone::DarkPurple, "─"));
        push_span(&mut r, lit(ArtTone::PaleLavender, "─"));
        push_span(&mut r, lit(ArtTone::PaleLavender, "╮"));
        assert(span_views(r@) =~= seq![
            (ArtTone::Plain, spaces((padding + 8) as nat)),
            (ArtTone::PaleLavender, "╭"@),
            (ArtTone::PaleLavender, "─"@),
            (ArtTone::DarkPurple, "─"@),
            (ArtTone::PaleLavender, "─"@),
            (ArtTone::DarkPurple, "─"@),
            (ArtTone::PaleLavender, "─"@),
            (ArtTone::DarkPurple, "─"@),
            (ArtTone::PaleLavender, "─"@),
            (ArtTone::PaleLavender, "╮"@),
        ]);
    } else {
        push_span(&mut r, pad(padding + 8));
        push_span(&mut r, lit(ArtTone::PaleLavender, "╭"));
        push_span(&mut r, lit(ArtTone::PaleLavender, "─"));
        push_span(&mut r, lit(ArtTone::DarkPurple, "─"));
        push_span(&mut r, lit(ArtTone::PaleLavender, "─"));
        push_span(&mut r, lit(ArtTone::DarkPurple, "─"));
        push_span(&mut r, lit(ArtTone::PaleLavender, "─"));
        push_span(&mut r, lit(ArtTone::DarkPurple, "─"));
        push_span(&mut r, lit(ArtTone::PaleLavender, "─"));
        push_span(&mut r, lit(ArtTone::PaleLavender, "╮"));
        assert(span_views(r@) =~= seq![
            (ArtTone::Plain, spaces((padding + 8) as nat)),
            (ArtTone::PaleLavender, "╭"@),
            (ArtTone::PaleLavender, "─"@),
            (ArtTone::DarkPurple, "─"@),
            (ArtTone::PaleLavender, "─"@),
            (ArtTone::DarkPurple, "─"@),
            (ArtTone::PaleLavender, "─"@),
            (ArtTone::DarkPurple, "─"@),
            (ArtTone::PaleLavender, "─"@),
            (ArtTone::PaleLavender, "╮"@),
        ]);
    }
    r
}

fn flask_row_3_spans(padding: usize, frame: usize) -> (r: Vec<(ArtTone, String)>)
    requires
        padding <= usize::MAX - 10,

    ensures
        span_views(r@) == flask_row_3(padding as nat, frame as nat),
        row_width(span_views(r@)) == flask_row_width(padding as nat, frame as nat, 3),
{
    proof {
        reveal_strlit(" ' ");
        reveal_strlit(" ` ");
        reveal_strlit(" ~ ");
        reveal_strlit("'");
        reveal_strlit("`");
        reveal_strlit("~");
        reveal_strlit("│");
    }
    let mut r: Vec<(ArtTone, String)> = Vec::new();
    if frame == 0 {
        push_span(&mut r, pad(padding + 8));
        push_span(&mut r, lit(ArtTone::PaleLavender, "│"));
        push_span(&mut r, lit(ArtTone::VaporCyan, " ~ "));
        push_span(&mut r, lit(ArtTone::PaleLavender, "'"));
        push_span(&mut r, lit(ArtTone::VaporCyan, " ~ "));
        push_span(&mut r, lit(ArtTone::PaleLavender, "│"));
        assert(span_views(r@) =~= seq![
            (ArtTone::Plain, spaces((padding + 8) as nat)),
            (ArtTone::PaleLavender, "│"@),
            (ArtTone::VaporCyan, " ~ "@),
            (ArtTone::PaleLavender, "'"@),
            (ArtTone::VaporCyan, " ~ "@),
            (ArtTone::PaleLavender, "│"@),
        ]);
    } else if frame == 1 {
        push_span(&mut r, pad(padding + 8));
        push_span(&mut r, lit(ArtTone::PaleLavender, "│"));
        push_span(&mut r, lit(ArtTone::PaleLavender, " ' "));
        push_span(&mut r, lit(ArtTone::VaporCyan, "~"));
        push_span(&mut r, lit(ArtTone::PaleLavender, " ` "));
        push_span(&mut r, lit(ArtTone::PaleLavender, "│"));
        assert(span_views(r@) =~= seq![
            (ArtTone::Plain, spaces((padding + 8) as nat)),
            (ArtTone::PaleLavender, "│"@),
            (ArtTone::PaleLavender, " ' "@),
            (ArtTone::VaporCyan, "~"@),
            (ArtTone::PaleLavender, " ` "@),
            (ArtTone::PaleLavender, "│"@),
        ]);
    } else if frame == 2 {
        push_span(&mut r, pad(padding + 8));
        push_span(&mut r, lit(ArtTone::PaleLavender, "│"));
        push_span(&mut r, lit(ArtTone::PaleLavender, " ` "));
        push_span(&mut r, lit(ArtTone::VaporCyan, "~"));
        push_span(&mut r, lit(ArtTone::PaleLavender, " ' "));
        push_span(&mut r, lit(ArtTone::PaleLavender, "│"));
        assert(span_views(r@) =~= seq![
            (ArtTone::Plain, spaces((padding + 8) as nat)),
            (ArtTone::PaleLavender, "│"@),
            (ArtTone::PaleLavender, " ` "@),
            (ArtTone::VaporCyan, "~"@),
            (ArtTone::PaleLavender, " ' "@),
            (ArtTone::PaleLavender, "│"@),
        ]);
    } else {
        push_span(&mut r, pad(padding + 8));
        push_span(&mut r, lit(ArtTone::PaleLavender, "│"));
        push_span(&mut r, lit(ArtTone::VaporCyan, " ~ "));
        push_span(&mut r, lit(ArtTone::PaleLavender, "`"));
        push_span(&mut r, lit(ArtTone::VaporCyan, " ~ "));
        push_span(&mut r, lit(ArtTone::PaleLavender, "│"));
        assert(span_views(r@) =~= seq![
            (ArtTone::Plain, spaces((padding + 8) as nat)),
            (ArtTone::PaleLavender, "│"@),
            (ArtTone::VaporCyan, " ~ "@),
            (ArtTone::PaleLavender, "`"@),
            (ArtTone::VaporCyan, " ~ "@),
            (ArtTone::PaleLavender, "│"@),
        ]);
    }
    r
}

fn flask_row_4_spans(padding: usize, frame: usize) -> (r: Vec<(ArtTone, String)>)
    requires
        padding <= usize::MAX - 10,

    ensures
        span_views(r@) == flask_row_4(padding as nat, frame as nat),
        row_width(span_views(r@)) == flask_row_width(padding as nat, frame as nat, 4),
{
    proof {
        reveal_strlit("            ");
        reveal_strlit("/");
        reveal_strlit("\\");
    }
    let mut r: Vec<(ArtTone, String)> = Vec::new();
    push_span(&mut r, pad(padding + 6));
    push_span(&mut r, lit(ArtTone::PaleLavender, "/"));
    push_span(&mut r, lit(ArtTone::Plain, "            "));
    push_span(&mut r, lit(ArtTone::PaleLavender, "\\"));
    assert(span_views(r@) =~= seq![
        (ArtTone::Plain, spaces((padding + 6) as nat)),
        (ArtTone::PaleLavender, "/"@),
        (ArtTone::Plain, "            "@),
        (ArtTone::PaleLavender, "\\"@),
    ]);
    r
}

fn flask_row_5_spans(padding: usize, frame: usize) -> (r: Vec<(ArtTone, String)>)
    requires
        padding <= usize::MAX - 10,

    ensures
        span_views(r@) == flask_row_5(padding as nat, frame as nat),
        row_width(span_views(r@)) == flask_row_width(padding as nat, frame as nat, 5),
{
    proof {
        reveal_strlit("   o");
        reveal_strlit("  o");
        reveal_strlit("  o ");
        reveal_strlit("  o  ");
        reveal_strlit("  ~~~");
        reveal_strlit(" o ");
        reveal_strlit(" o   ");
        reveal_strlit(" ~~~");
        reveal_strlit(" ~~~~");
        reveal_strlit("/");
        reveal_strlit("\\");
        reveal_strlit("~~~");
        reveal_strlit("~~~~");
    }
    let mut r: Vec<(ArtTone, String)> = Vec::new();
    if frame == 0 {
        push_span(&mut r, pad(padding + 4));
        push_span(&mut r, lit(ArtTone::PaleLavender, "/"));
        push_span(&mut r, lit(ArtTone::BubbleGreen, "  o"));
        push_span(&mut r, lit(ArtTone::MysticGlow, "  ~~~"));
        push_span(&mut r, lit(ArtTone::BrightViolet, "~~~"));
        push_span(&mut r, lit(ArtTone::BubbleGreen, "  o  "));
        push_span(&mut r, lit(ArtTone::PaleLavender, "\\"));
        assert(span_views(r@) =~= seq![
            (ArtTone::Plain, spaces((padding + 4) as nat)),
            (ArtTone::PaleLavender, "/"@),
            (ArtTone::BubbleGreen, "  o"@),
            (ArtTone::MysticGlow, "  ~~~"@),
            (ArtTone::BrightViolet, "~~~"@),
            (ArtTone::BubbleGreen, "  o  "@),
            (ArtTone::PaleLavender, "\\"@),
        ]);
    } else if frame == 1 {
        push_span(&mut r, pad(padding + 4));
        push_span(&mut r, lit(ArtTone::PaleLavender, "/"));
        push_span(&mut r, lit(ArtTone::BubbleGreen, " o "));
        push_span(&mut r, lit(ArtTone::MysticGlow, " ~~~~"));
        push_span(&mut r, lit(ArtTone::BrightViolet, "~~~"));
        push_span(&mut r, lit(ArtTone::BubbleGreen, " o   "));
        push_span(&mut r, lit(ArtTone::PaleLavender, "\\"));
        assert(span_views(r@) =~= seq![
            (ArtTone::Plain, spaces((padding + 4) as nat)),
            (ArtTone::PaleLavender, "/"@),
            (ArtTone::BubbleGreen, " o "@),
            (ArtTone::MysticGlow, " ~~~~"@),
            (ArtTone::BrightViolet, "~~~"@),
            (ArtTone::BubbleGreen, " o   "@),
            (ArtTone::PaleLavender, "\\"@),
        ]);
    } else if frame == 2 {
        push_span(&mut r, pad(padding + 4));
        push_span(&mut r, lit(ArtTone::PaleLavender, "/"));
        push_span(&mut r, lit(ArtTone::BubbleGreen, "   o"));
        push_span(&mut r, lit(ArtTone::MysticGlow, " ~~~"));
        push_span(&mut r, lit(ArtTone::BrightViolet, "~~~~"));
        push_span(&mut r, lit(ArtTone::BubbleGreen, " o   "));
        push_span(&mut r, lit(ArtTone::PaleLavender, "\\"));
        assert(span_views(r@) =~= seq![
            (ArtTone::Plain, spaces((padding + 4) as nat)),
            (ArtTone::PaleLavender, "/"@),
            (ArtTone::BubbleGreen, "   o"@),
            (ArtTone::MysticGlow, " ~~~"@),
            (ArtTone::BrightViolet, "~~~~"@),
            (ArtTone::BubbleGreen, " o   "@),
            (ArtTone::PaleLavender, "\\"@),
        ]);
    } else {
        push_span(&mut r, pad(padding + 4));
        push_span(&mut r, lit(ArtTone::PaleLavender, "/"));
        push_span(&mut r, lit(ArtTone::BubbleGreen, "  o "));
        push_span(&mut r, lit(ArtTone::MysticGlow, "~~~~"));
        push_span(&mut r, lit(ArtTone::BrightViolet, "~~~"));
        push_span(&mut r, lit(ArtTone::BubbleGreen, "  o  "));
        push_span(&mut r, lit(ArtTone::PaleLavender, "\\"));
        assert(span_views(r@) =~= seq![
            (ArtTone::Plain, spaces((padding + 4) as nat)),
            (ArtTone::PaleLavender, "/"@),
            (ArtTone::BubbleGreen, "  o "@),
            (ArtTone::MysticGlow, "~~~~"@),
            (ArtTone::BrightViolet, "~~~"@),
            (ArtTone::BubbleGreen, "  o  "@),
            (ArtTone::PaleLavender, "\\"@),
        ]);
    }
    r
}

fn flask_row_6_spans(padding: usize, frame: usize) -> (r: Vec<(ArtTone, String)>)
    requires
        padding <= usize::MAX - 10,

    ensures
        span_views(r@) == flask_row_6(padding as nat, frame as nat),
        row_width(span_views(r@)) == flask_row_width(padding as nat, frame as nat, 6),
{
    proof {
        reveal_strlit("   o");
        reveal_strlit("  o");
        reveal_strlit("  o ");
        reveal_strlit("  ▓▓▓▓▓▓▓▓▓▓▓▓");
        reveal_strlit(" o");
        reveal_strlit(" o ");
        reveal_strlit(" o  ");
        reveal_strlit(" ▓▓▓▓▓▓▓▓▓▓▓▓");
        reveal_strlit("/");
        reveal_strlit("\\");
        reveal_strlit("o   ");
        reveal_strlit("▓▓▓▓▓▓▓▓▓▓▓▓");
    }
    let mut r: Vec<(ArtTone, String)> = Vec::new();
    if frame == 0 {
        push_span(&mut r, pad(padding + 2));
        push_span(&mut r, lit(ArtTone::PaleLavender, "/"));
        push_span(&mut r, lit(ArtTone::BubbleGreen, " o"));
        push_span(&mut r, lit(ArtTone::BrightViolet, "  ▓▓▓▓▓▓▓▓▓▓▓▓"));
        push_span(&mut r, lit(ArtTone::BubbleGreen, "  o "));
        push_span(&mut r, lit(ArtTone::PaleLavender, "\\"));
        assert(span_views(r@) =~= seq![
            (ArtTone::Plain, spaces((padding + 2) as nat)),
            (ArtTone::PaleLavender, "/"@),
            (ArtTone::BubbleGreen, " o"@),
            (ArtTone::BrightViolet, "  ▓▓▓▓▓▓▓▓▓▓▓▓"@),
            (ArtTone::BubbleGreen, "  o "@),
            (ArtTone::PaleLavender, "\\"@),
        ]);
    } else if frame == 1 {
        push_span(&mut r, pad(padding + 2));
        push_span(&mut r, lit(ArtTone::PaleLavender, "/"));
        push_span(&mut r, lit(ArtTone::BubbleGreen, "  o"));
        push_span(&mut r, lit(ArtTone::BrightViolet, " ▓▓▓▓▓▓▓▓▓▓▓▓"));
        push_span(&mut r, lit(ArtTone::BubbleGreen, " o  "));
        push_span(&mut r, lit(ArtTone::PaleLavender, "\\"));
        assert(span_views(r@) =~= seq![
            (ArtTone::Plain, spaces((padding + 2) as nat)),
            (ArtTone::PaleLavender, "/"@),
            (ArtTone::BubbleGreen, "  o"@),
            (ArtTone::BrightViolet, " ▓▓▓▓▓▓▓▓▓▓▓▓"@),
            (ArtTone::BubbleGreen, " o  "@),
            (ArtTone::PaleLavender, "\\"@),
        ]);
    } else if frame == 2 {
        push_span(&mut r, pad(padding + 2));
        push_span(&mut r, lit(ArtTone::PaleLavender, "/"));
        push_span(&mut r, lit(ArtTone::BubbleGreen, "   o"));
        push_span(&mut r, lit(ArtTone::BrightViolet, "▓▓▓▓▓▓▓▓▓▓▓▓"));
        push_span(&mut r, lit(ArtTone::BubbleGreen, "o   "));
        push_span(&mut r, lit(ArtTone::PaleLavender, "\\"));
        assert(span_views(r@) =~= seq![
            (ArtTone::Plain, spaces((padding + 2) as nat)),
            (ArtTone::PaleLavender, "/"@),
            (ArtTone::BubbleGreen, "   o"@),
            (ArtTone::BrightViolet, "▓▓▓▓▓▓▓▓▓▓▓▓"@),
            (ArtTone::BubbleGreen, "o   "@),
            (ArtTone::PaleLavender, "\\"@),
        ]);
    } else {
        push_span(&mut r, pad(padding + 2));
        push_span(&mut r, lit(ArtTone::PaleLavender, "/"));
        push_span(&mut r, lit(ArtTone::BubbleGreen, " o "));
        push_span(&mut r, lit(ArtTone::BrightViolet, " ▓▓▓▓▓▓▓▓▓▓▓▓"));
        push_span(&mut r, lit(ArtTone::BubbleGreen, "  o "));
        push_span(&mut r, lit(ArtTone::PaleLavender, "\\"));
        assert(span_views(r@) =~= seq![
            (ArtTone::Plain, spaces((padding + 2) as nat)),
            (ArtTone::PaleLavender, "/"@),
            (ArtTone::BubbleGreen, " o "@),
            (ArtTone::BrightViolet, " ▓▓▓▓▓▓▓▓▓▓▓▓"@),
            (ArtTone::BubbleGreen, "  o "@),
            (ArtTone::PaleLavender, "\\"@),
        ]);
    }
    r
}

fn flask_row_7_spans(padding: usize, frame: usize) -> (r: Vec<(ArtTone, String)>)
    requires
        padding <= usize::MAX - 10,

    ensures
        span_views(r@) == flask_row_7(padding as nat, frame as nat),
        row_width(span_views(r@)) == flask_row_width(padding as nat, frame as nat, 7),
{
    proof {
        reveal_strlit("  ");
        reveal_strlit("   ");
        reveal_strlit("  o");
        reveal_strlit("  o ");
        reveal_strlit("  ▓▓▓▓▓▓▓▓▓▓▓▓▓▓");
        reveal_strlit(" o");
        reveal_strlit(" o  ");
        reveal_strlit(" ▓▓▓▓▓▓▓▓▓▓▓▓▓▓");
        reveal_strlit("o");
        reveal_strlit("o   ");
        reveal_strlit("|");
        reveal_strlit("▓▓▓▓▓▓▓▓▓▓▓▓▓▓");
    }
    let mut r: Vec<(ArtTone, String)> = Vec::new();
    if frame == 0 {
        push_span(&mut r, pad(padding + 0));
        push_span(&mut r, lit(ArtTone::PaleLavender, "|"));
        push_span(&mut r, lit(ArtTone::MysticPurple, "  "));
        push_span(&mut r, lit(ArtTone::BubbleGreen, "o"));
        push_span(&mut r, lit(ArtTone::MysticPurple, " ▓▓▓▓▓▓▓▓▓▓▓▓▓▓"));
        push_span(&mut r, lit(ArtTone::BubbleGreen, " o  "));
        push_span(&mut r, lit(ArtTone::PaleLavender, "|"));
        assert(span_views(r@) =~= seq![
            (ArtTone::Plain, spaces((padding + 0) as nat)),
            (ArtTone::PaleLavender, "|"@),
            (ArtTone::MysticPurple, "  "@),
            (ArtTone::BubbleGreen, "o"@),
            (ArtTone::MysticPurple, " ▓▓▓▓▓▓▓▓▓▓▓▓▓▓"@),
            (ArtTone::BubbleGreen, " o  "@),
            (ArtTone::PaleLavender, "|"@),
        ]);
    } else if frame == 1 {
        push_span(&mut r, pad(padding + 0));
        push_span(&mut r, lit(ArtTone::PaleLavender, "|"));
        push_span(&mut r, lit(ArtTone::BubbleGreen, " o"));
        push_span(&mut r, lit(ArtTone::MysticPurple, "  ▓▓▓▓▓▓▓▓▓▓▓▓▓▓"));
        push_span(&mut r, lit(ArtTone::BubbleGreen, "  o "));
        push_span(&mut r, lit(ArtTone::PaleLavender, "|"));
        assert(span_views(r@) =~= seq![
            (ArtTone::Plain, spaces((padding + 0) as nat)),
            (ArtTone::PaleLavender, "|"@),
            (ArtTone::BubbleGreen, " o"@),
            (ArtTone::MysticPurple, "  ▓▓▓▓▓▓▓▓▓▓▓▓▓▓"@),
            (ArtTone::BubbleGreen, "  o "@),
            (ArtTone::PaleLavender, "|"@),
        ]);
    } else if frame == 2 {
        push_span(&mut r, pad(padding + 0));
        push_span(&mut r, lit(ArtTone::PaleLavender, "|"));
        push_span(&mut r, lit(ArtTone::MysticPurple, "   "));
        push_span(&mut r, lit(ArtTone::BubbleGreen, "o"));
        push_span(&mut r, lit(ArtTone::MysticPurple, "▓▓▓▓▓▓▓▓▓▓▓▓▓▓"));
        push_span(&mut r, lit(ArtTone::BubbleGreen, "o   "));
        push_span(&mut r, lit(ArtTone::PaleLavender, "|"));
        assert(span_views(r@) =~= seq![
            (ArtTone::Plain, spaces((padding + 0) as nat)),
            (ArtTone::PaleLavender, "|"@),
            (ArtTone::MysticPurple, "   "@),
            (ArtTone::BubbleGreen, "o"@),
            (ArtTone::MysticPurple, "▓▓▓▓▓▓▓▓▓▓▓▓▓▓"@),
            (ArtTone::BubbleGreen, "o   "@),
            (ArtTone::PaleLavender, "|"@),
        ]);
    } else {
        push_span(&mut r, pad(padding + 0));
        push_span(&mut r, lit(ArtTone::PaleLavender, "|"));
        push_span(&mut r, lit(ArtTone::BubbleGreen, "  o"));
        push_span(&mut r, lit(ArtTone::MysticPurple, " ▓▓▓▓▓▓▓▓▓▓▓▓▓▓"));
        push_span(&mut r, lit(ArtTone::BubbleGreen, " o  "));
        push_span(&mut r, lit(ArtTone::PaleLavender, "|"));
        assert(span_views(r@) =~= seq![
            (ArtTone::Plain, spaces((padding + 0) as nat)),
            (ArtTone::PaleLavender, "|"@),
            (ArtTone::BubbleGreen, "  o"@),
            (ArtTone::MysticPurple, " ▓▓▓▓▓▓▓▓▓▓▓▓▓▓"@),
            (ArtTone::BubbleGreen, " o  "@),
            (ArtTone::PaleLavender, "|"@),
        ]);
    }
    r
}

fn flask_row_8_spans(padding: usize, frame: usize) -> (r: Vec<(ArtTone, String)>)
    requires
        padding <= usize::MAX - 10,

    ensures
        span_views(r@) == flask_row_8(padding as nat, frame as nat),
        row_width(span_views(r@)) == flask_row_width(padding as nat, frame as nat, 8),
{
    proof {
        reveal_strlit("  ▓▓▓▓▓▓▓▓▓▓▓▓▓▓▓▓▓▓  ");
        reveal_strlit("|");
    }
    let mut r: Vec<(ArtTone, String)> = Vec::new();
    push_span(&mut r, pad(padding + 0));
    push_span(&mut r, lit(ArtTone::PaleLavender, "|"));
    push_span(&mut r, lit(ArtTone::DarkPurple, "  ▓▓▓▓▓▓▓▓▓▓▓▓▓▓▓▓▓▓  "));
    push_span(&mut r, lit(ArtTone::PaleLavender, "|"));
    assert(span_views(r@) =~= seq![
        (ArtTone::Plain, spaces((padding + 0) as nat)),
        (ArtTone::PaleLavender, "|"@),
        (ArtTone::DarkPurple, "  ▓▓▓▓▓▓▓▓▓▓▓▓▓▓▓▓▓▓  "@),
        (ArtTone::PaleLavender, "|"@),
    ]);
    r
}

fn flask_row_9_spans(padding: usize, frame: usize) -> (r: Vec<(ArtTone, String)>)
    requires
        padding <= usize::MAX - 10,

    ensures
        span_views(r@) == flask_row_9(padding as nat, frame as nat),
        row_width(span_views(r@)) == flask_row_width(padding as nat, frame as nat, 9),
{
    proof {
        reveal_strlit(" \\");
        reveal_strlit("/ ");
        reveal_strlit("▓▓▓▓▓▓▓▓▓▓▓▓▓▓▓▓▓▓▓▓");
    }
    let mut r: Vec<(ArtTone, String)> = Vec::new();
    push_span(&mut r, pad(padding + 0));
    push_span(&mut r, lit(ArtTone::PaleLavender, " \\"));
    push_span(&mut r, lit(ArtTone::DeepViolet, "▓▓▓▓▓▓▓▓▓▓▓▓▓▓▓▓▓▓▓▓"));
    push_span(&mut r, lit(ArtTone::PaleLavender, "/ "));
    assert(span_views(r@) =~= seq![
        (ArtTone::Plain, spaces((padding + 0) as nat)),
        (ArtTone::PaleLavender, " \\"@),
        (ArtTone::DeepViolet, "▓▓▓▓▓▓▓▓▓▓▓▓▓▓▓▓▓▓▓▓"@),
        (ArtTone::PaleLavender, "/ "@),
    ]);
    r
}

fn flask_row_10_spans(padding: usize, frame: usize) -> (r: Vec<(ArtTone, String)>)
    requires
        padding <= usize::MAX - 10,

    ensures
        span_views(r@) == flask_row_10(padding as nat, frame as nat),
        row_width(span_views(r@)) == flask_row_width(padding as nat, frame as nat, 10),
{
    proof {
        reveal_strlit("──────────────────");
        reveal_strlit("╯");
        reveal_strlit("╰");
    }
    let mut r: Vec<(ArtTone, String)> = Vec::new();
    push_span(&mut r, pad(padding + 2));
    push_span(&mut r, lit(ArtTone::PaleLavender, "╰"));
    push_span(&mut r, lit(ArtTone::DarkPurple, "──────────────────"));
    push_span(&mut r, lit(ArtTone::PaleLavender, "╯"));
    assert(span_views(r@) =~= seq![
        (ArtTone::Plain, spaces((padding + 2) as nat)),
        (ArtTone::PaleLavender, "╰"@),
        (ArtTone::DarkPurple, "──────────────────"@),
        (ArtTone::PaleLavender, "╯"@),
    ]);
    r
}

fn flask_row_11_spans(padding: usize, frame: usize) -> (r: Vec<(ArtTone, String)>)
    requires
        padding <= usize::MAX - 10,

    ensures
        span_views(r@) == flask_row_11(padding as nat, frame as nat),
        row_width(span_views(r@)) == flask_row_width(padding as nat, frame as nat, 11),
{
    proof {
        reveal_strlit("══════════════");
    }
    let mut r: Vec<(ArtTone, String)> = Vec::new();
    push_span(&mut r, pad(padding + 4));
    push_span(&mut r, lit(ArtTone::DarkStone, "══════════════"));
    assert(span_views(r@) =~= seq![
        (ArtTone::Plain, spaces((padding + 4) as nat)),
        (ArtTone::DarkStone, "══════════════"@),
    ]);
    r
}

/// Columns of blank padding, after `padding`, before row `i` of the flask art.
pub open spec fn flask_offset(i: int) -> nat {
    if i == 0 {
        10
    } else if i == 1 {
        8
    } else if i == 2 {
        8
    } else if i == 3 {
        8
    } else if i == 4 {
        6
    } else if i == 5 {
        4
    } else if i == 6 {
        2
    } else if i == 7 {
        0
    } else if i == 8 {
        0
    } else if i == 9 {
        0
    } else if i == 10 {
        2
    } else if i == 11 {
        4
    } else {
        0
    }
}

/// The flask at animation `frame` (0 to 3), shifted right by `padding`
/// columns: twelve rows, whose blank leading spans are `padding` plus 10,
/// 8, 8, 8, 6, 4, 2, 0, 0, 0, 2 and 4 columns.
pub fn flask_art(padding: usize, frame: usize) -> (rows: Vec<Vec<(ArtTone, String)>>)
    requires
        frame < 4,
        padding <= usize::MAX - 10,
    ensures
        art_views(rows@) == spec_flask_art(padding as nat, frame as nat),
        rows@.len() == 12,
        forall|i: int| 0 <= i < 12 ==> #[trigger] art_views(rows@)[i][0] == (ArtTone::Plain, spaces((padding + flask_offset(i)) as nat)),
        forall|i: int| 0 <= i < rows@.len() ==> #[trigger] row_width(art_views(rows@)[i]) == flask_row_width(padding as nat, frame as nat, i),
{
    let mut rows: Vec<Vec<(ArtTone, String)>> = Vec::new();
    rows.push(flask_row_0_spans(padding, frame));
    rows.push(flask_row_1_spans(padding, frame));
    rows.push(flask_row_2_spans(padding, frame));
    rows.push(flask_row_3_spans(padding, frame));
    rows.push(flask_row_4_spans(padding, frame));
    rows.push(flask_row_5_spans(padding, frame));
    rows.push(flask_row_6_spans(padding, frame));
    rows.push(flask_row_7_spans(padding, frame));
    rows.push(flask_row_8_spans(padding, frame));
    rows.push(flask_row_9_spans(padding, frame));
    rows.push(flask_row_10_spans(padding, frame));
    rows.push(flask_row_11_spans(padding, frame));
    assert(art_views(rows@) =~= spec_flask_art(padding as nat, frame as nat));
    rows
}

} // verus!
