//! The blacksmith's forge, in four animation frames.
use vstd::prelude::*;

use super::{art_views, lit, pad, push_span, row_width, span_views, spaces, ArtTone};

verus! {

/// Row 0 of the forge art.
pub open spec fn forge_row_0(padding: nat, frame: nat) -> Seq<(ArtTone, Seq<char>)> {
    if frame == 0 {
        seq![
            (ArtTone::Plain, spaces((padding + 7) as nat)),
            (ArtTone::HotWhite, "*"@),
            (ArtTone::BrightYellow, "  ."@),
            (ArtTone::FlameOrange, "  '"@),
            (ArtTone::BrightYellow, "  ."@),
            (ArtTone::HotWhite, "  *"@),
        ]
    } else if frame == 1 {
        seq![
            (ArtTone::Plain, spaces((padding + 7) as nat)),
            (ArtTone::BrightYellow, "."@),
            (ArtTone::HotWhite, "  *"@),
            (ArtTone::BrightYellow, "  ."@),
            (ArtTone::FlameOrange, "  '"@),
            (ArtTone::BrightYellow, "  ."@),
        ]
    } else if frame == 2 {
        seq![
            (ArtTone::Plain, spaces((padding + 7) as nat)),
            (ArtTone::FlameOrange, "'"@),
            (ArtTone::BrightYellow, "  ."@),
            (ArtTone::HotWhite, "  *"@),
            (ArtTone::BrightYellow, "  ."@),
            (ArtTone::FlameOrange, "  '"@),
        ]
    } else {
        seq![
            (ArtTone::Plain, spaces((padding + 7) as nat)),
            (ArtTone::BrightYellow, "."@),
            (ArtTone::FlameOrange, "  '"@),
            (ArtTone::BrightYellow, "  ."@),
            (ArtTone::HotWhite, "  *"@),
            (ArtTone::BrightYellow, "  ."@),
        ]
    }
}

/// Row 1 of the forge art.
pub open spec fn forge_row_1(padding: nat, frame: nat) -> Seq<(ArtTone, Seq<char>)> {
    if frame == 0 {
        seq![
            (ArtTone::Plain, spaces((padding + 5) as nat)),
            (ArtTone::BrightYellow, "'"@),
            (ArtTone::FlameOrange, "  `"@),
            (ArtTone::FlameOrange, "~^~^~"@),
            (ArtTone::FlameOrange, "`"@),
            (ArtTone::BrightYellow, "  '"@),
        ]
    } else if frame == 1 {
        seq![
            (ArtTone::Plain, spaces((padding + 5) as nat)),
            (ArtTone::FlameOrange, "`"@),
            (ArtTone::BrightYellow, "  '"@),
            (ArtTone::FlameOrange, "^~^~^"@),
            (ArtTone::BrightYellow, "'"@),
            (ArtTone::FlameOrange, "  `"@),
        ]
    } else if frame == 2 {
        seq![
            (ArtTone::Plain, spaces((padding + 5) as nat)),
            (ArtTone::BrightYellow, "'"@),
            (ArtTone::BrightYellow, "  '"@),
            (ArtTone::FlameOrange, "~^~^~"@),
            (ArtTone::FlameOrange, "`"@),
            (ArtTone::BrightYellow, "  '"@),
        ]
    } else {
        seq![
            (ArtTone::Plain, spaces((padding + 5) as nat)),
            (ArtTone::FlameOrange, "`"@),
            (ArtTone::FlameOrange, "  `"@),
            (ArtTone::FlameOrange, "^~^~^"@),
            (ArtTone::BrightYellow, "'"@),
            (ArtTone::FlameOrange, "  `"@),
        ]
    }
}

/// Row 2 of the forge art.
pub open spec fn forge_row_2(padding: nat, frame: nat) -> Seq<(ArtTone, Seq<char>)> {
    if frame == 0 {
        seq![
            (ArtTone::Plain, spaces((padding + 4) as nat)),
            (ArtTone::FlameOrange, "`"@),
            (ArtTone::FlameOrange, "  ~*~"@),
            (ArtTone::DeepOrange, "'\""@),
            (ArtTone::FlameOrange, "~*~"@),
            (ArtTone::FlameOrange, "  `"@),
        ]
    } else if frame == 1 {
        seq![
            (ArtTone::Plain, spaces((padding + 4) as nat)),
            (ArtTone::BrightYellow, "'"@),
            (ArtTone::FlameOrange, "  *~*"@),
            (ArtTone::DeepOrange, "\"'"@),
            (ArtTone::FlameOrange, "*~*"@),
            (ArtTone::BrightYellow, "  '"@),
        ]
    } else if frame == 2 {
        seq![
            (ArtTone::Plain, spaces((padding + 4) as nat)),
            (ArtTone::FlameOrange, "`"@),
            (ArtTone::FlameOrange, "  ~o~"@),
            (ArtTone::DeepOrange, "'\""@),
            (ArtTone::FlameOrange, "~o~"@),
            (ArtTone::FlameOrange, "  `"@),
        ]
    } else {
        seq![
            (ArtTone::Plain, spaces((padding + 4) as nat)),
            (ArtTone::BrightYellow, "'"@),
            (ArtTone::FlameOrange, "  o~o"@),
            (ArtTone::DeepOrange, "\"'"@),
            (ArtTone::FlameOrange, "o~o"@),
            (ArtTone::BrightYellow, "  '"@),
        ]
    }
}

/// Row 3 of the forge art.
pub open spec fn forge_row_3(padding: nat, frame: nat) -> Seq<(ArtTone, Seq<char>)> {
    if frame == 0 {
        seq![
            (ArtTone::Plain, spaces((padding + 3) as nat)),
            (ArtTone::BrightYellow, "."@),
            (ArtTone::DeepOrange, " '~\"~"@),
            (ArtTone::EmberRed, "*~*"@),
            (ArtTone::DeepOrange, "~\"~'"@),
            (ArtTone::BrightYellow, " ."@),
        ]
    } else if frame == 1 {
        seq![
            (ArtTone::Plain, spaces((padding + 3) as nat)),
            (ArtTone::FlameOrange, "'"@),
            (ArtTone::DeepOrange, " ~\"~'"@),
            (ArtTone::EmberRed, "~*~"@),
            (ArtTone::DeepOrange, "'~\"~"@),
            (ArtTone::FlameOrange, " '"@),
        ]
    } else if frame == 2 {
        seq![
            (ArtTone::Plain, spaces((padding + 3) as nat)),
            (ArtTone::BrightYellow, "."@),
            (ArtTone::DeepOrange, " \"~'~"@),
            (ArtTone::EmberRed, "*~*"@),
            (ArtTone::DeepOrange, "~'~\""@),
            (ArtTone::BrightYellow, " ."@),
        ]
    } else {
        seq![
            (ArtTone::Plain, spaces((padding + 3) as nat)),
            (ArtTone::FlameOrange, "'"@),
            (ArtTone::DeepOrange, " ~'~\""@),
            (ArtTone::EmberRed, "~o~"@),
            (ArtTone::DeepOrange, "\"~'~"@),
            (ArtTone::FlameOrange, " '"@),
        ]
    }
}

/// Row 4 of the forge art.
pub open spec fn forge_row_4(padding: nat, frame: nat) -> Seq<(ArtTone, Seq<char>)> {
    if frame == 0 {
        seq![
            (ArtTone::Plain, spaces((padding + 2) as nat)),
            (ArtTone::FlameOrange, "'"@),
            (ArtTone::DeepOrange, " `~^~"@),
            (ArtTone::EmberRed, "'\"'\"'"@),
            (ArtTone::DeepOrange, "~^~`"@),
            (ArtTone::FlameOrange, " '"@),
        ]
    } else if frame == 1 {
        seq![
            (ArtTone::Plain, spaces((padding + 2) as nat)),
            (ArtTone::FlameOrange, "`"@),
            (ArtTone::DeepOrange, " ~^~`"@),
            (ArtTone::EmberRed, "\"'\"'\""@),
            (ArtTone::DeepOrange, "`~^~"@),
            (ArtTone::FlameOrange, " `"@),
        ]
    } else if frame == 2 {
        seq![
            (ArtTone::Plain, spaces((padding + 2) as nat)),
            (ArtTone::FlameOrange, "'"@),
            (ArtTone::DeepOrange, " ^~`~"@),
            (ArtTone::EmberRed, "'\"'\"'"@),
            (ArtTone::DeepOrange, "~`~^"@),
            (ArtTone::FlameOrange, " '"@),
        ]
    } else {
        seq![
            (ArtTone::Plain, spaces((padding + 2) as nat)),
            (ArtTone::FlameOrange, "`"@),
            (ArtTone::DeepOrange, " ~`~^"@),
            (ArtTone::EmberRed, "\"'\"'\""@),
            (ArtTone::DeepOrange, "^~`~"@),
            (ArtTone::FlameOrange, " `"@),
        ]
    }
}

/// Row 5 of the forge art.
pub open spec fn forge_row_5(padding: nat, frame: nat) -> Seq<(ArtTone, Seq<char>)> {
    seq![
        (ArtTone::Plain, spaces((padding + 0) as nat)),
        (ArtTone::Granite, "╔════════════════════════╗"@),
    ]
}

/// Row 6 of the forge art.
pub open spec fn forge_row_6(padding: nat, frame: nat) -> Seq<(ArtTone, Seq<char>)> {
    seq![
        (ArtTone::Plain, spaces((padding + 0) as nat)),
        (ArtTone::Granite, "║"@),
        (ArtTone::Granite, "▒▒▒▒▒▒▒▒▒▒▒▒▒▒▒▒▒▒▒▒▒▒▒▒"@),
        (ArtTone::Granite, "║"@),
    ]
}

/// Row 7 of the forge art.
pub open spec fn forge_row_7(padding: nat, frame: nat) -> Seq<(ArtTone, Seq<char>)> {
    seq![
        (ArtTone::Plain, spaces((padding + 0) as nat)),
        (ArtTone::Granite, "║"@),
        (ArtTone::DarkStone, "▒▒"@),
        (ArtTone::LightStone, "╔══════════════════╗"@),
        (ArtTone::DarkStone, "▒▒"@),
        (ArtTone::Granite, "║"@),
    ]
}

/// Row 8 of the forge art.
pub open spec fn forge_row_8(padding: nat, frame: nat) -> Seq<(ArtTone, Seq<char>)> {
    if frame == 0 {
        seq![
            (ArtTone::Plain, spaces((padding + 0) as nat)),
            (ArtTone::Granite, "║"@),
            (ArtTone::DarkStone, "▒▒"@),
            (ArtTone::LightStone, "║"@),
            (ArtTone::BrightYellow, "'~^"@),
            (ArtTone::FlameOrange, "\"~o~"@),
            (ArtTone::BrightYellow, "\"'^~"@),
            (ArtTone::FlameOrange, "^'~o"@),
            (ArtTone::BrightYellow, "~\"^"@),
            (ArtTone::LightStone, "║"@),
            (ArtTone::DarkStone, "▒▒"@),
            (ArtTone::Granite, "║"@),
        ]
    } else if frame == 1 {
        seq![
            (ArtTone::Plain, spaces((padding + 0) as nat)),
            (ArtTone::Granite, "║"@),
            (ArtTone::DarkStone, "▒▒"@),
            (ArtTone::LightStone, "║"@),
            (ArtTone::BrightYellow, "~^'"@),
            (ArtTone::FlameOrange, "~o~\""@),
            (ArtTone::BrightYellow, "'^~\""@),
            (ArtTone::FlameOrange, "'~o^"@),
            (ArtTone::BrightYellow, "\"^~"@),
            (ArtTone::LightStone, "║"@),
            (ArtTone::DarkStone, "▒▒"@),
            (ArtTone::Granite, "║"@),
        ]
    } else if frame == 2 {
        seq![
            (ArtTone::Plain, spaces((padding + 0) as nat)),
            (ArtTone::Granite, "║"@),
            (ArtTone::DarkStone, "▒▒"@),
            (ArtTone::LightStone, "║"@),
            (ArtTone::BrightYellow, "^'~"@),
            (ArtTone::FlameOrange, "o~\"~"@),
            (ArtTone::BrightYellow, "^~\"'"@),
            (ArtTone::FlameOrange, "~o^'"@),
            (ArtTone::BrightYellow, "^~\""@),
            (ArtTone::LightStone, "║"@),
            (ArtTone::DarkStone, "▒▒"@),
            (ArtTone::Granite, "║"@),
        ]
    } else {
        seq![
            (ArtTone::Plain, spaces((padding + 0) as nat)),
            (ArtTone::Granite, "║"@),
            (ArtTone::DarkStone, "▒▒"@),
            (ArtTone::LightStone, "║"@),
            (ArtTone::BrightYellow, "\"~'"@),
            (ArtTone::FlameOrange, "~\"o~"@),
            (ArtTone::BrightYellow, "~\"'^"@),
            (ArtTone::FlameOrange, "o^'~"@),
            (ArtTone::BrightYellow, "~\"'"@),
            (ArtTone::LightStone, "║"@),
            (ArtTone::DarkStone, "▒▒"@),
            (ArtTone::Granite, "║"@),
        ]
    }
}

/// Row 9 of the forge art.
pub open spec fn forge_row_9(padding: nat, frame: nat) -> Seq<(ArtTone, Seq<char>)> {
    if frame == 0 {
        seq![
            (ArtTone::Plain, spaces((padding + 0) as nat)),
            (ArtTone::Granite, "║"@),
            (ArtTone::DarkStone, "▒▒"@),
            (ArtTone::LightStone, "║"@),
            (ArtTone::FlameOrange, "~o@"@),
            (ArtTone::DeepOrange, "O#~^~#O"@),
            (ArtTone::FlameOrange, "@o~^~o@O"@),
            (ArtTone::LightStone, "║"@),
            (ArtTone::DarkStone, "▒▒"@),
            (ArtTone::Granite, "║"@),
        ]
    } else if frame == 1 {
        seq![
            (ArtTone::Plain, spaces((padding + 0) as nat)),
            (ArtTone::Granite, "║"@),
            (ArtTone::DarkStone, "▒▒"@),
            (ArtTone::LightStone, "║"@),
            (ArtTone::FlameOrange, "o@~"@),
            (ArtTone::DeepOrange, "#~^~#OO"@),
            (ArtTone::FlameOrange, "o~^~o@O@"@),
            (ArtTone::LightStone, "║"@),
            (ArtTone::DarkStone, "▒▒"@),
            (ArtTone::Granite, "║"@),
        ]
    } else if frame == 2 {
        seq![
            (ArtTone::Plain, spaces((padding + 0) as nat)),
            (ArtTone::Granite, "║"@),
            (ArtTone::DarkStone, "▒▒"@),
            (ArtTone::LightStone, "║"@),
            (ArtTone::FlameOrange, "@~o"@),
            (ArtTone::DeepOrange, "~^~#OO#"@),
            (ArtTone::FlameOrange, "~^~o@O@o"@),
            (ArtTone::LightStone, "║"@),
            (ArtTone::DarkStone, "▒▒"@),
            (ArtTone::Granite, "║"@),
        ]
    } else {
        seq![
            (ArtTone::Plain, spaces((padding + 0) as nat)),
            (ArtTone::Granite, "║"@),
            (ArtTone::DarkStone, "▒▒"@),
            (ArtTone::LightStone, "║"@),
            (ArtTone::FlameOrange, "~@o"@),
            (ArtTone::DeepOrange, "^~#OO#~"@),
            (ArtTone::FlameOrange, "^~o@O@o~"@),
            (ArtTone::LightStone, "║"@),
            (ArtTone::DarkStone, "▒▒"@),
            (ArtTone::Granite, "║"@),
        ]
    }
}

/// Row 10 of the forge art.
pub open spec fn forge_row_10(padding: nat, frame: nat) -> Seq<(ArtTone, Seq<char>)> {
    if frame == 0 {
        seq![
            (ArtTone::Plain, spaces((padding + 0) as nat)),
            (ArtTone::Granite, "║"@),
            (ArtTone::DarkStone, "▒▒"@),
            (ArtTone::LightStone, "║"@),
            (ArtTone::DeepOrange, "@O#"@),
            (ArtTone::EmberRed, "o@#O@#O@#o"@),
            (ArtTone::DeepOrange, "O@#o@"@),
            (ArtTone::LightStone, "║"@),
            (ArtTone::DarkStone, "▒▒"@),
            (ArtTone::Granite, "║"@),
        ]
    } else if frame == 1 {
        seq![
            (ArtTone::Plain, spaces((padding + 0) as nat)),
            (ArtTone::Granite, "║"@),
            (ArtTone::DarkStone, "▒▒"@),
            (ArtTone::LightStone, "║"@),
            (ArtTone::DeepOrange, "O#@"@),
            (ArtTone::EmberRed, "@#O@#O@#o@"@),
            (ArtTone::DeepOrange, "@#o@O"@),
            (ArtTone::LightStone, "║"@),
            (ArtTone::DarkStone, "▒▒"@),
            (ArtTone::Granite, "║"@),
        ]
    } else if frame == 2 {
        seq![
            (ArtTone::Plain, spaces((padding + 0) as nat)),
            (ArtTone::Granite, "║"@),
            (ArtTone::DarkStone, "▒▒"@),
            (ArtTone::LightStone, "║"@),
            (ArtTone::DeepOrange, "#@O"@),
            (ArtTone::EmberRed, "#O@#O@#o@#"@),
            (ArtTone::DeepOrange, "#o@O@"@),
            (ArtTone::LightStone, "║"@),
            (ArtTone::DarkStone, "▒▒"@),
            (ArtTone::Granite, "║"@),
        ]
    } else {
        seq![
            (ArtTone::Plain, spaces((padding + 0) as nat)),
            (ArtTone::Granite, "║"@),
            (ArtTone::DarkStone, "▒▒"@),
            (ArtTone::LightStone, "║"@),
            (ArtTone::DeepOrange, "@#O"@),
            (ArtTone::EmberRed, "O@#O@#o@#O"@),
            (ArtTone::DeepOrange, "o@O@#"@),
            (ArtTone::LightStone, "║"@),
            (ArtTone::DarkStone, "▒▒"@),
            (ArtTone::Granite, "║"@),
        ]
    }
}

/// Row 11 of the forge art.
pub open spec fn forge_row_11(padding: nat, frame: nat) -> Seq<(ArtTone, Seq<char>)> {
    if frame == 0 {
        seq![
            (ArtTone::Plain, spaces((padding + 0) as nat)),
            (ArtTone::Granite, "║"@),
            (ArtTone::DarkStone, "▒▒"@),
            (ArtTone::LightStone, "║"@),
            (ArtTone::EmberRed, "#O@o"@),
            (ArtTone::EmberRed, "@#O##O#@"@),
            (ArtTone::EmberRed, "o@O#@o"@),
            (ArtTone::LightStone, "║"@),
            (ArtTone::DarkStone, "▒▒"@),
            (ArtTone::Granite, "║"@),
        ]
    } else if frame == 1 {
        seq![
            (ArtTone::Plain, spaces((padding + 0) as nat)),
            (ArtTone::Granite, "║"@),
            (ArtTone::DarkStone, "▒▒"@),
            (ArtTone::LightStone, "║"@),
            (ArtTone::EmberRed, "O@o#"@),
            (ArtTone::EmberRed, "#O##O#@@"@),
            (ArtTone::EmberRed, "@O#@oO"@),
            (ArtTone::LightStone, "║"@),
            (ArtTone::DarkStone, "▒▒"@),
            (ArtTone::Granite, "║"@),
        ]
    } else if frame == 2 {
        seq![
            (ArtTone::Plain, spaces((padding + 0) as nat)),
            (ArtTone::Granite, "║"@),
            (ArtTone::DarkStone, "▒▒"@),
            (ArtTone::LightStone, "║"@),
            (ArtTone::EmberRed, "@o#O"@),
            (ArtTone::EmberRed, "O##O#@@#"@),
            (ArtTone::EmberRed, "O#@oO@"@),
            (ArtTone::LightStone, "║"@),
            (ArtTone::DarkStone, "▒▒"@),
            (ArtTone::Granite, "║"@),
        ]
    } else {
        seq![
            (ArtTone::Plain, spaces((padding + 0) as nat)),
            (ArtTone::Granite, "║"@),
            (ArtTone::DarkStone, "▒▒"@),
            (ArtTone::LightStone, "║"@),
            (ArtTone::EmberRed, "o#O@"@),
            (ArtTone::EmberRed, "##O#@@#O"@),
            (ArtTone::EmberRed, "#@oO@o"@),
            (ArtTone::LightStone, "║"@),
            (ArtTone::DarkStone, "▒▒"@),
            (ArtTone::Granite, "║"@),
        ]
    }
}

/// Row 12 of the forge art.
pub open spec fn forge_row_12(padding: nat, frame: nat) -> Seq<(ArtTone, Seq<char>)> {
    if frame == 0 {
        seq![
            (ArtTone::Plain, spaces((padding + 0) as nat)),
            (ArtTone::Granite, "║"@),
            (ArtTone::DarkStone, "▒▒"@),
            (ArtTone::LightStone, "║"@),
            (ArtTone::EmberRed, "O#@"@),
            (ArtTone::EmberRed, "#O@O##O@O#@O"@),
            (ArtTone::EmberRed, "@#O"@),
            (ArtTone::LightStone, "║"@),
            (ArtTone::DarkStone, "▒▒"@),
            (ArtTone::Granite, "║"@),
        ]
    } else if frame == 1 {
        seq![
            (ArtTone::Plain, spaces((padding + 0) as nat)),
            (ArtTone::Granite, "║"@),
            (ArtTone::DarkStone, "▒▒"@),
            (ArtTone::LightStone, "║"@),
            (ArtTone::EmberRed, "#@O"@),
            (ArtTone::EmberRed, "O@O##O@O#@O#"@),
            (ArtTone::EmberRed, "#O@"@),
            (ArtTone::LightStone, "║"@),
            (ArtTone::DarkStone, "▒▒"@),
            (ArtTone::Granite, "║"@),
        ]
    } else if frame == 2 {
        seq![
            (ArtTone::Plain, spaces((padding + 0) as nat)),
            (ArtTone::Granite, "║"@),
            (ArtTone::DarkStone, "▒▒"@),
            (ArtTone::LightStone, "║"@),
            (ArtTone::EmberRed, "@O#"@),
            (ArtTone::EmberRed, "@O##O@O#@O#O"@),
            (ArtTone::EmberRed, "O@#"@),
            (ArtTone::LightStone, "║"@),
            (ArtTone::DarkStone, "▒▒"@),
            (ArtTone::Granite, "║"@),
        ]
    } else {
        seq![
            (ArtTone::Plain, spaces((padding + 0) as nat)),
            (ArtTone::Granite, "║"@),
            (ArtTone::DarkStone, "▒▒"@),
            (ArtTone::LightStone, "║"@),
            (ArtTone::EmberRed, "O@#"@),
            (ArtTone::EmberRed, "O##O@O#@O#O@"@),
            (ArtTone::EmberRed, "@#O"@),
            (ArtTone::LightStone, "║"@),
            (ArtTone::DarkStone, "▒▒"@),
            (ArtTone::Granite, "║"@),
        ]
    }
}

/// Row 13 of the forge art.
pub open spec fn forge_row_13(padding: nat, frame: nat) -> Seq<(ArtTone, Seq<char>)> {
    if frame == 0 {
        seq![
            (ArtTone::Plain, spaces((padding + 0) as nat)),
            (ArtTone::Granite, "║"@),
            (ArtTone::DarkStone, "▒▒"@),
            (ArtTone::LightStone, "║"@),
            (ArtTone::CoalBlack, "▄█"@),
            (ArtTone::EmberRed, "▓░"@),
            (ArtTone::CoalBlack, "▄██"@),
            (ArtTone::EmberRed, "▓░"@),
            (ArtTone::CoalBlack, "███"@),
            (ArtTone::EmberRed, "▄░▓"@),
            (ArtTone::CoalBlack, "█▄▓"@),
            (ArtTone::LightStone, "║"@),
            (ArtTone::DarkStone, "▒▒"@),
            (ArtTone::Granite, "║"@),
        ]
    } else if frame == 1 {
        seq![
            (ArtTone::Plain, spaces((padding + 0) as nat)),
            (ArtTone::Granite, "║"@),
            (ArtTone::DarkStone, "▒▒"@),
            (ArtTone::LightStone, "║"@),
            (ArtTone::CoalBlack, "█▄"@),
            (ArtTone::EmberRed, "░▓"@),
            (ArtTone::CoalBlack, "██▄"@),
            (ArtTone::EmberRed, "░▓"@),
            (ArtTone::CoalBlack, "███"@),
            (ArtTone::EmberRed, "░▓▄"@),
            (ArtTone::CoalBlack, "▄▓█"@),
            (ArtTone::LightStone, "║"@),
            (ArtTone::DarkStone, "▒▒"@),
            (ArtTone::Granite, "║"@),
        ]
    } else if frame == 2 {
        seq![
            (ArtTone::Plain, spaces((padding + 0) as nat)),
            (ArtTone::Granite, "║"@),
            (ArtTone::DarkStone, "▒▒"@),
            (ArtTone::LightStone, "║"@),
            (ArtTone::CoalBlack, "▄█"@),
            (ArtTone::EmberRed, "░▓"@),
            (ArtTone::CoalBlack, "▄██"@),
            (ArtTone::EmberRed, "▓▄"@),
            (ArtTone::CoalBlack, "███"@),
            (ArtTone::EmberRed, "▓░▄"@),
            (ArtTone::CoalBlack, "█▄▓"@),
            (ArtTone::LightStone, "║"@),
            (ArtTone::DarkStone, "▒▒"@),
            (ArtTone::Granite, "║"@),
        ]
    } else {
        seq![
            (ArtTone::Plain, spaces((padding + 0) as nat)),
            (ArtTone::Granite, "║"@),
            (ArtTone::DarkStone, "▒▒"@),
            (ArtTone::LightStone, "║"@),
            (ArtTone::CoalBlack, "█▄"@),
            (ArtTone::EmberRed, "▓▄"@),
            (ArtTone::CoalBlack, "██▄"@),
            (ArtTone::EmberRed, "░▓"@),
            (ArtTone::CoalBlack, "███"@),
            (ArtTone::EmberRed, "▄▓░"@),
            (ArtTone::CoalBlack, "▄▓█"@),
            (ArtTone::LightStone, "║"@),
            (ArtTone::DarkStone, "▒▒"@),
            (ArtTone::Granite, "║"@),
        ]
    }
}

/// Row 14 of the forge art.
pub open spec fn forge_row_14(padding: nat, frame: nat) -> Seq<(ArtTone, Seq<char>)> {
    seq![
        (ArtTone::Plain, spaces((padding + 0) as nat)),
        (ArtTone::Granite, "║"@),
        (ArtTone::DarkStone, "▒▒"@),
        (ArtTone::LightStone, "║"@),
        (ArtTone::CoalBlack, "██████████████████"@),
        (ArtTone::LightStone, "║"@),
        (ArtTone::DarkStone, "▒▒"@),
        (ArtTone::Granite, "║"@),
    ]
}

/// Row 15 of the forge art.
pub open spec fn forge_row_15(padding: nat, frame: nat) -> Seq<(ArtTone, Seq<char>)> {
    seq![
        (ArtTone::Plain, spaces((padding + 0) as nat)),
        (ArtTone::Granite, "║"@),
        (ArtTone::DarkStone, "▒▒"@),
        (ArtTone::LightStone, "╚══════════════════╝"@),
        (ArtTone::DarkStone, "▒▒"@),
        (ArtTone::Granite, "║"@),
    ]
}

/// Row 16 of the forge art.
pub open spec fn forge_row_16(padding: nat, frame: nat) -> Seq<(ArtTone, Seq<char>)> {
    seq![
        (ArtTone::Plain, spaces((padding + 0) as nat)),
        (ArtTone::Granite, "╚════════════════════════╝"@),
    ]
}

/// Row 17 of the forge art.
pub open spec fn forge_row_17(padding: nat, frame: nat) -> Seq<(ArtTone, Seq<char>)> {
    seq![
        (ArtTone::Plain, spaces((padding + 3) as nat)),
        (ArtTone::DarkStone, "▀▀▀▀▀▀▀▀▀▀▀▀▀▀▀▀▀▀"@),
    ]
}

/// The width of each row of the forge art, in columns.
pub open spec fn forge_row_width(padding: nat, frame: nat, row: int) -> nat {
    if row == 0 {
        (padding + 20) as nat
    } else if row == 1 {
        (padding + 18) as nat
    } else if row == 2 {
        (padding + 18) as nat
    } else if row == 3 {
        (padding + 18) as nat
    } else if row == 4 {
        (padding + 19) as nat
    } else if row == 5 {
        (padding + 26) as nat
    } else if row == 6 {
        (padding + 26) as nat
    } else if row == 7 {
        (padding + 26) as nat
    } else if row == 8 {
        (padding + 26) as nat
    } else if row == 9 {
        (padding + 26) as nat
    } else if row == 10 {
        (padding + 26) as nat
    } else if row == 11 {
        (padding + 26) as nat
    } else if row == 12 {
        (padding + 26) as nat
    } else if row == 13 {
        (padding + 26) as nat
    } else if row == 14 {
        (padding + 26) as nat
    } else if row == 15 {
        (padding + 26) as nat
    } else if row == 16 {
        (padding + 26) as nat
    } else if row == 17 {
        (padding + 21) as nat
    } else {
        0
    }
}

/// The forge at animation `frame`, shifted right by `padding` columns: sparks, five rows of flames, then the stone furnace with its fire.
pub open spec fn spec_forge_art(padding: nat, frame: nat) -> Seq<Seq<(ArtTone, Seq<char>)>> {
    seq![
        forge_row_0(padding, frame),
        forge_row_1(padding, frame),
        forge_row_2(padding, frame),
        forge_row_3(padding, frame),
        forge_row_4(padding, frame),
        forge_row_5(padding, frame),
        forge_row_6(padding, frame),
        forge_row_7(padding, frame),
        forge_row_8(padding, frame),
        forge_row_9(padding, frame),
        forge_row_10(padding, frame),
        forge_row_11(padding, frame),
        forge_row_12(padding, frame),
        forge_row_13(padding, frame),
        forge_row_14(padding, frame),
        forge_row_15(padding, frame),
        forge_row_16(padding, frame),
        forge_row_17(padding, frame),
    ]
}

fn forge_row_0_spans(padding: usize, frame: usize) -> (r: Vec<(ArtTone, String)>)
    requires
        padding <= usize::MAX - 7,

    ensures
        span_views(r@) == forge_row_0(padding as nat, frame as nat),
        row_width(span_views(r@)) == forge_row_width(padding as nat, frame as nat, 0),
{
    proof {
        reveal_strlit("  '");
        reveal_strlit("  *");
        reveal_strlit("  .");
        reveal_strlit("'");
        reveal_strlit("*");
        reveal_strlit(".");
    }
    let mut r: Vec<(ArtTone, String)> = Vec::new();
    if frame == 0 {
        push_span(&mut r, pad(padding + 7));
        push_span(&mut r, lit(ArtTone::HotWhite, "*"));
        push_span(&mut r, lit(ArtTone::BrightYellow, "  ."));
        push_span(&mut r, lit(ArtTone::FlameOrange, "  '"));
        push_span(&mut r, lit(ArtTone::BrightYellow, "  ."));
        push_span(&mut r, lit(ArtTone::HotWhite, "  *"));
        assert(span_views(r@) =~= seq![
            (ArtTone::Plain, spaces((padding + 7) as nat)),
            (ArtTone::HotWhite, "*"@),
            (ArtTone::BrightYellow, "  ."@),
            (ArtTone::FlameOrange, "  '"@),
            (ArtTone::BrightYellow, "  ."@),
            (ArtTone::HotWhite, "  *"@),
        ]);
    } else if frame == 1 {
        push_span(&mut r, pad(padding + 7));
        push_span(&mut r, lit(ArtTone::BrightYellow, "."));
        push_span(&mut r, lit(ArtTone::HotWhite, "  *"));
        push_span(&mut r, lit(ArtTone::BrightYellow, "  ."));
        push_span(&mut r, lit(ArtTone::FlameOrange, "  '"));
        push_span(&mut r, lit(ArtTone::BrightYellow, "  ."));
        assert(span_views(r@) =~= seq![
            (ArtTone::Plain, spaces((padding + 7) as nat)),
            (ArtTone::BrightYellow, "."@),
            (ArtTone::HotWhite, "  *"@),
            (ArtTone::BrightYellow, "  ."@),
            (ArtTone::FlameOrange, "  '"@),
            (ArtTone::BrightYellow, "  ."@),
        ]);
    } else if frame == 2 {
        push_span(&mut r, pad(padding + 7));
        push_span(&mut r, lit(ArtTone::FlameOrange, "'"));
        push_span(&mut r, lit(ArtTone::BrightYellow, "  ."));
        push_span(&mut r, lit(ArtTone::HotWhite, "  *"));
        push_span(&mut r, lit(ArtTone::BrightYellow, "  ."));
        push_span(&mut r, lit(ArtTone::FlameOrange, "  '"));
        assert(span_views(r@) =~= seq![
            (ArtTone::Plain, spaces((padding + 7) as nat)),
            (ArtTone::FlameOrange, "'"@),
            (ArtTone::BrightYellow, "  ."@),
            (ArtTone::HotWhite, "  *"@),
            (ArtTone::BrightYellow, "  ."@),
            (ArtTone::FlameOrange, "  '"@),
        ]);
    } else {
        push_span(&mut r, pad(padding + 7));
        push_span(&mut r, lit(ArtTone::BrightYellow, "."));
        push_span(&mut r, lit(ArtTone::FlameOrange, "  '"));
        push_span(&mut r, lit(ArtTone::BrightYellow, "  ."));
        push_span(&mut r, lit(ArtTone::HotWhite, "  *"));
        push_span(&mut r, lit(ArtTone::BrightYellow, "  ."));
        assert(span_views(r@) =~= seq![
            (ArtTone::Plain, spaces((padding + 7) as nat)),
            (ArtTone::BrightYellow, "."@),
            (ArtTone::FlameOrange, "  '"@),
            (ArtTone::BrightYellow, "  ."@),
            (ArtTone::HotWhite, "  *"@),
            (ArtTone::BrightYellow, "  ."@),
        ]);
    }
    r
}

fn forge_row_1_spans(padding: usize, frame: usize) -> (r: Vec<(ArtTone, String)>)
    requires
        padding <= usize::MAX - 7,

    ensures
        span_views(r@) == forge_row_1(padding as nat, frame as nat),
        row_width(span_views(r@)) == forge_row_width(padding as nat, frame as nat, 1),
{
    proof {
        reveal_strlit("  '");
        reveal_strlit("  `");
        reveal_strlit("'");
        reveal_strlit("^~^~^");
        reveal_strlit("`");
        reveal_strlit("~^~^~");
    }
    let mut r: Vec<(ArtTone, String)> = Vec::new();
    if frame == 0 {
        push_span(&mut r, pad(padding + 5));
        push_span(&mut r, lit(ArtTone::BrightYellow, "'"));
        push_span(&mut r, lit(ArtTone::FlameOrange, "  `"));
        push_span(&mut r, lit(ArtTone::FlameOrange, "~^~^~"));
        push_span(&mut r, lit(ArtTone::FlameOrange, "`"));
        push_span(&mut r, lit(ArtTone::BrightYellow, "  '"));
        assert(span_views(r@) =~= seq![
            (ArtTone::Plain, spaces((padding + 5) as nat)),
            (ArtTone::BrightYellow, "'"@),
            (ArtTone::FlameOrange, "  `"@),
            (ArtTone::FlameOrange, "~^~^~"@),
            (ArtTone::FlameOrange, "`"@),
            (ArtTone::BrightYellow, "  '"@),
        ]);
    } else if frame == 1 {
        push_span(&mut r, pad(padding + 5));
        push_span(&mut r, lit(ArtTone::FlameOrange, "`"));
        push_span(&mut r, lit(ArtTone::BrightYellow, "  '"));
        push_span(&mut r, lit(ArtTone::FlameOrange, "^~^~^"));
        push_span(&mut r, lit(ArtTone::BrightYellow, "'"));
        push_span(&mut r, lit(ArtTone::FlameOrange, "  `"));
        assert(span_views(r@) =~= seq![
            (ArtTone::Plain, spaces((padding + 5) as nat)),
            (ArtTone::FlameOrange, "`"@),
            (ArtTone::BrightYellow, "  '"@),
            (ArtTone::FlameOrange, "^~^~^"@),
            (ArtTone::BrightYellow, "'"@),
            (ArtTone::FlameOrange, "  `"@),
        ]);
    } else if frame == 2 {
        push_span(&mut r, pad(padding + 5));
        push_span(&mut r, lit(ArtTone::BrightYellow, "'"));
        push_span(&mut r, lit(ArtTone::BrightYellow, "  '"));
        push_span(&mut r, lit(ArtTone::FlameOrange, "~^~^~"));
        push_span(&mut r, lit(ArtTone::FlameOrange, "`"));
        push_span(&mut r, lit(ArtTone::BrightYellow, "  '"));
        assert(span_views(r@) =~= seq![
            (ArtTone::Plain, spaces((padding + 5) as nat)),
            (ArtTone::BrightYellow, "'"@),
            (ArtTone::BrightYellow, "  '"@),
            (ArtTone::FlameOrange, "~^~^~"@),
            (ArtTone::FlameOrange, "`"@),
            (ArtTone::BrightYellow, "  '"@),
        ]);
    } else {
        push_span(&mut r, pad(padding + 5));
        push_span(&mut r, lit(ArtTone::FlameOrange, "`"));
        push_span(&mut r, lit(ArtTone::FlameOrange, "  `"));
        push_span(&mut r, lit(ArtTone::FlameOrange, "^~^~^"));
        push_span(&mut r, lit(ArtTone::BrightYellow, "'"));
        push_span(&mut r, lit(ArtTone::FlameOrange, "  `"));
        assert(span_views(r@) =~= seq![
            (ArtTone::Plain, spaces((padding + 5) as nat)),
            (ArtTone::FlameOrange, "`"@),
            (ArtTone::FlameOrange, "  `"@),
            (ArtTone::FlameOrange, "^~^~^"@),
            (ArtTone::BrightYellow, "'"@),
            (ArtTone::FlameOrange, "  `"@),
        ]);
    }
    r
}

fn forge_row_2_spans(padding: usize, frame: usize) -> (r: Vec<(ArtTone, String)>)
    requires
        padding <= usize::MAX - 7,

    ensures
        span_views(r@) == forge_row_2(padding as nat, frame as nat),
        row_width(span_views(r@)) == forge_row_width(padding as nat, frame as nat, 2),
{
    proof {
        reveal_strlit("  '");
        reveal_strlit("  *~*");
        reveal_strlit("  `");
        reveal_strlit("  o~o");
        reveal_strlit("  ~*~");
        reveal_strlit("  ~o~");
        reveal_strlit("\"'");
        reveal_strlit("'");
        reveal_strlit("'\"");
        reveal_strlit("*~*");
        reveal_strlit("`");
        reveal_strlit("o~o");
        reveal_strlit("~*~");
        reveal_strlit("~o~");
    }
    let mut r: Vec<(ArtTone, String)> = Vec::new();
    if frame == 0 {
        push_span(&mut r, pad(padding + 4));
        push_span(&mut r, lit(ArtTone::FlameOrange, "`"));
        push_span(&mut r, lit(ArtTone::FlameOrange, "  ~*~"));
        push_span(&mut r, lit(ArtTone::DeepOrange, "'\""));
        push_span(&mut r, lit(ArtTone::FlameOrange, "~*~"));
        push_span(&mut r, lit(ArtTone::FlameOrange, "  `"));
        assert(span_views(r@) =~= seq![
            (ArtTone::Plain, spaces((padding + 4) as nat)),
            (ArtTone::FlameOrange, "`"@),
            (ArtTone::FlameOrange, "  ~*~"@),
            (ArtTone::DeepOrange, "'\""@),
            (ArtTone::FlameOrange, "~*~"@),
            (ArtTone::FlameOrange, "  `"@),
        ]);
    } else if frame == 1 {
        push_span(&mut r, pad(padding + 4));
        push_span(&mut r, lit(ArtTone::BrightYellow, "'"));
        push_span(&mut r, lit(ArtTone::FlameOrange, "  *~*"));
        push_span(&mut r, lit(ArtTone::DeepOrange, "\"'"));
        push_span(&mut r, lit(ArtTone::FlameOrange, "*~*"));
        push_span(&mut r, lit(ArtTone::BrightYellow, "  '"));
        assert(span_views(r@) =~= seq![
            (ArtTone::Plain, spaces((padding + 4) as nat)),
            (ArtTone::BrightYellow, "'"@),
            (ArtTone::FlameOrange, "  *~*"@),
            (ArtTone::DeepOrange, "\"'"@),
            (ArtTone::FlameOrange, "*~*"@),
            (ArtTone::BrightYellow, "  '"@),
        ]);
    } else if frame == 2 {
        push_span(&mut r, pad(padding + 4));
        push_span(&mut r, lit(ArtTone::FlameOrange, "`"));
        push_span(&mut r, lit(ArtTone::FlameOrange, "  ~o~"));
        push_span(&mut r, lit(ArtTone::DeepOrange, "'\""));
        push_span(&mut r, lit(ArtTone::FlameOrange, "~o~"));
        push_span(&mut r, lit(ArtTone::FlameOrange, "  `"));
        assert(span_views(r@) =~= seq![
            (ArtTone::Plain, spaces((padding + 4) as nat)),
            (ArtTone::FlameOrange, "`"@),
            (ArtTone::FlameOrange, "  ~o~"@),
            (ArtTone::DeepOrange, "'\""@),
            (ArtTone::FlameOrange, "~o~"@),
            (ArtTone::FlameOrange, "  `"@),
        ]);
    } else {
        push_span(&mut r, pad(padding + 4));
        push_span(&mut r, lit(ArtTone::BrightYellow, "'"));
        push_span(&mut r, lit(ArtTone::FlameOrange, "  o~o"));
        push_span(&mut r, lit(ArtTone::DeepOrange, "\"'"));
        push_span(&mut r, lit(ArtTone::FlameOrange, "o~o"));
        push_span(&mut r, lit(ArtTone::BrightYellow, "  '"));
        assert(span_views(r@) =~= seq![
            (ArtTone::Plain, spaces((padding + 4) as nat)),
            (ArtTone::BrightYellow, "'"@),
            (ArtTone::FlameOrange, "  o~o"@),
            (ArtTone::DeepOrange, "\"'"@),
            (ArtTone::FlameOrange, "o~o"@),
            (ArtTone::BrightYellow, "  '"@),
        ]);
    }
    r
}

fn forge_row_3_spans(padding: usize, frame: usize) -> (r: Vec<(ArtTone, String)>)
    requires
        padding <= usize::MAX - 7,

    ensures
        span_views(r@) == forge_row_3(padding as nat, frame as nat),
        row_width(span_views(r@)) == forge_row_width(padding as nat, frame as nat, 3),
{
    proof {
        reveal_strlit(" \"~'~");
        reveal_strlit(" '");
        reveal_strlit(" '~\"~");
        reveal_strlit(" .");
        reveal_strlit(" ~\"~'");
        reveal_strlit(" ~'~\"");
        reveal_strlit("\"~'~");
        reveal_strlit("'");
        reveal_strlit("'~\"~");
        reveal_strlit("*~*");
        reveal_strlit(".");
        reveal_strlit("~\"~'");
        reveal_strlit("~'~\"");
        reveal_strlit("~*~");
        reveal_strlit("~o~");
    }
    let mut r: Vec<(ArtTone, String)> = Vec::new();
    if frame == 0 {
        push_span(&mut r, pad(padding + 3));
        push_span(&mut r, lit(ArtTone::BrightYellow, "."));
        push_span(&mut r, lit(ArtTone::DeepOrange, " '~\"~"));
        push_span(&mut r, lit(ArtTone::EmberRed, "*~*"));
        push_span(&mut r, lit(ArtTone::DeepOrange, "~\"~'"));
        push_span(&mut r, lit(ArtTone::BrightYellow, " ."));
        assert(span_views(r@) =~= seq![
            (ArtTone::Plain, spaces((padding + 3) as nat)),
            (ArtTone::BrightYellow, "."@),
            (ArtTone::DeepOrange, " '~\"~"@),
            (ArtTone::EmberRed, "*~*"@),
            (ArtTone::DeepOrange, "~\"~'"@),
            (ArtTone::BrightYellow, " ."@),
        ]);
    } else if frame == 1 {
        push_span(&mut r, pad(padding + 3));
        push_span(&mut r, lit(ArtTone::FlameOrange, "'"));
        push_span(&mut r, lit(ArtTone::DeepOrange, " ~\"~'"));
        push_span(&mut r, lit(ArtTone::EmberRed, "~*~"));
        push_span(&mut r, lit(ArtTone::DeepOrange, "'~\"~"));
        push_span(&mut r, lit(ArtTone::FlameOrange, " '"));
        assert(span_views(r@) =~= seq![
            (ArtTone::Plain, spaces((padding + 3) as nat)),
            (ArtTone::FlameOrange, "'"@),
            (ArtTone::DeepOrange, " ~\"~'"@),
            (ArtTone::EmberRed, "~*~"@),
            (ArtTone::DeepOrange, "'~\"~"@),
            (ArtTone::FlameOrange, " '"@),
        ]);
    } else if frame == 2 {
        push_span(&mut r, pad(padding + 3));
        push_span(&mut r, lit(ArtTone::BrightYellow, "."));
        push_span(&mut r, lit(ArtTone::DeepOrange, " \"~'~"));
        push_span(&mut r, lit(ArtTone::EmberRed, "*~*"));
        push_span(&mut r, lit(ArtTone::DeepOrange, "~'~\""));
        push_span(&mut r, lit(ArtTone::BrightYellow, " ."));
        assert(span_views(r@) =~= seq![
            (ArtTone::Plain, spaces((padding + 3) as nat)),
            (ArtTone::BrightYellow, "."@),
            (ArtTone::DeepOrange, " \"~'~"@),
            (ArtTone::EmberRed, "*~*"@),
            (ArtTone::DeepOrange, "~'~\""@),
            (ArtTone::BrightYellow, " ."@),
        ]);
    } else {
        push_span(&mut r, pad(padding + 3));
        push_span(&mut r, lit(ArtTone::FlameOrange, "'"));
        push_span(&mut r, lit(ArtTone::DeepOrange, " ~'~\""));
        push_span(&mut r, lit(ArtTone::EmberRed, "~o~"));
        push_span(&mut r, lit(ArtTone::DeepOrange, "\"~'~"));
        push_span(&mut r, lit(ArtTone::FlameOrange, " '"));
        assert(span_views(r@) =~= seq![
            (ArtTone::Plain, spaces((padding + 3) as nat)),
            (ArtTone::FlameOrange, "'"@),
            (ArtTone::DeepOrange, " ~'~\""@),
            (ArtTone::EmberRed, "~o~"@),
            (ArtTone::DeepOrange, "\"~'~"@),
            (ArtTone::FlameOrange, " '"@),
        ]);
    }
    r
}

fn forge_row_4_spans(padding: usize, frame: usize) -> (r: Vec<(ArtTone, String)>)
    requires
        padding <= usize::MAX - 7,

    ensures
        span_views(r@) == forge_row_4(padding as nat, frame as nat),
        row_width(span_views(r@)) == forge_row_width(padding as nat, frame as nat, 4),
{
    proof {
        reveal_strlit(" '");
        reveal_strlit(" ^~`~");
        reveal_strlit(" `");
        reveal_strlit(" `~^~");
        reveal_strlit(" ~^~`");
        reveal_strlit(" ~`~^");
        reveal_strlit("\"'\"'\"");
        reveal_strlit("'");
        reveal_strlit("'\"'\"'");
        reveal_strlit("^~`~");
        reveal_strlit("`");
        reveal_strlit("`~^~");
        reveal_strlit("~^~`");
        reveal_strlit("~`~^");
    }
    let mut r: Vec<(ArtTone, String)> = Vec::new();
    if frame == 0 {
        push_span(&mut r, pad(padding + 2));
        push_span(&mut r, lit(ArtTone::FlameOrange, "'"));
        push_span(&mut r, lit(ArtTone::DeepOrange, " `~^~"));
        push_span(&mut r, lit(ArtTone::EmberRed, "'\"'\"'"));
        push_span(&mut r, lit(ArtTone::DeepOrange, "~^~`"));
        push_span(&mut r, lit(ArtTone::FlameOrange, " '"));
        assert(span_views(r@) =~= seq![
            (ArtTone::Plain, spaces((padding + 2) as nat)),
            (ArtTone::FlameOrange, "'"@),
            (ArtTone::DeepOrange, " `~^~"@),
            (ArtTone::EmberRed, "'\"'\"'"@),
            (ArtTone::DeepOrange, "~^~`"@),
            (ArtTone::FlameOrange, " '"@),
        ]);
    } else if frame == 1 {
        push_span(&mut r, pad(padding + 2));
        push_span(&mut r, lit(ArtTone::FlameOrange, "`"));
        push_span(&mut r, lit(ArtTone::DeepOrange, " ~^~`"));
        push_span(&mut r, lit(ArtTone::EmberRed, "\"'\"'\""));
        push_span(&mut r, lit(ArtTone::DeepOrange, "`~^~"));
        push_span(&mut r, lit(ArtTone::FlameOrange, " `"));
        assert(span_views(r@) =~= seq![
            (ArtTone::Plain, spaces((padding + 2) as nat)),
            (ArtTone::FlameOrange, "`"@),
            (ArtTone::DeepOrange, " ~^~`"@),
            (ArtTone::EmberRed, "\"'\"'\""@),
            (ArtTone::DeepOrange, "`~^~"@),
            (ArtTone::FlameOrange, " `"@),
        ]);
    } else if frame == 2 {
        push_span(&mut r, pad(padding + 2));
        push_span(&mut r, lit(ArtTone::FlameOrange, "'"));
        push_span(&mut r, lit(ArtTone::DeepOrange, " ^~`~"));
        push_span(&mut r, lit(ArtTone::EmberRed, "'\"'\"'"));
        push_span(&mut r, lit(ArtTone::DeepOrange, "~`~^"));
        push_span(&mut r, lit(ArtTone::FlameOrange, " '"));
        assert(span_views(r@) =~= seq![
            (ArtTone::Plain, spaces((padding + 2) as nat)),
            (ArtTone::FlameOrange, "'"@),
            (ArtTone::DeepOrange, " ^~`~"@),
            (ArtTone::EmberRed, "'\"'\"'"@),
            (ArtTone::DeepOrange, "~`~^"@),
            (ArtTone::FlameOrange, " '"@),
        ]);
    } else {
        push_span(&mut r, pad(padding + 2));
        push_span(&mut r, lit(ArtTone::FlameOrange, "`"));
        push_span(&mut r, lit(ArtTone::DeepOrange, " ~`~^"));
        push_span(&mut r, lit(ArtTone::EmberRed, "\"'\"'\""));
        push_span(&mut r, lit(ArtTone::DeepOrange, "^~`~"));
        push_span(&mut r, lit(ArtTone::FlameOrange, " `"));
        assert(span_views(r@) =~= seq![
            (ArtTone::Plain, spaces((padding + 2) as nat)),
            (ArtTone::FlameOrange, "`"@),
            (ArtTone::DeepOrange, " ~`~^"@),
            (ArtTone::EmberRed, "\"'\"'\""@),
            (ArtTone::DeepOrange, "^~`~"@),
            (ArtTone::FlameOrange, " `"@),
        ]);
    }
    r
}

fn forge_row_5_spans(padding: usize, frame: usize) -> (r: Vec<(ArtTone, String)>)
    requires
        padding <= usize::MAX - 7,

    ensures
        span_views(r@) == forge_row_5(padding as nat, frame as nat),
        row_width(span_views(r@)) == forge_row_width(padding as nat, frame as nat, 5),
{
    proof {
        reveal_strlit("╔════════════════════════╗");
    }
    let mut r: Vec<(ArtTone, String)> = Vec::new();
    push_span(&mut r, pad(padding + 0));
    push_span(&mut r, lit(ArtTone::Granite, "╔════════════════════════╗"));
    assert(span_views(r@) =~= seq![
        (ArtTone::Plain, spaces((padding + 0) as nat)),
        (ArtTone::Granite, "╔════════════════════════╗"@),
    ]);
    r
}

fn forge_row_6_spans(padding: usize, frame: usize) -> (r: Vec<(ArtTone, String)>)
    requires
        padding <= usize::MAX - 7,

    ensures
        span_views(r@) == forge_row_6(padding as nat, frame as nat),
        row_width(span_views(r@)) == forge_row_width(padding as nat, frame as nat, 6),
{
    proof {
        reveal_strlit("║");
        reveal_strlit("▒▒▒▒▒▒▒▒▒▒▒▒▒▒▒▒▒▒▒▒▒▒▒▒");
    }
    let mut r: Vec<(ArtTone, String)> = Vec::new();
    push_span(&mut r, pad(padding + 0));
    push_span(&mut r, lit(ArtTone::Granite, "║"));
    push_span(&mut r, lit(ArtTone::Granite, "▒▒▒▒▒▒▒▒▒▒▒▒▒▒▒▒▒▒▒▒▒▒▒▒"));
    push_span(&mut r, lit(ArtTone::Granite, "║"));
    assert(span_views(r@) =~= seq![
        (ArtTone::Plain, spaces((padding + 0) as nat)),
        (ArtTone::Granite, "║"@),
        (ArtTone::Granite, "▒▒▒▒▒▒▒▒▒▒▒▒▒▒▒▒▒▒▒▒▒▒▒▒"@),
        (ArtTone::Granite, "║"@),
    ]);
    r
}

fn forge_row_7_spans(padding: usize, frame: usize) -> (r: Vec<(ArtTone, String)>)
    requires
        padding <= usize::MAX - 7,

    ensures
        span_views(r@) == forge_row_7(padding as nat, frame as nat),
        row_width(span_views(r@)) == forge_row_width(padding as nat, frame as nat, 7),
{
    proof {
        reveal_strlit("║");
        reveal_strlit("╔══════════════════╗");
        reveal_strlit("▒▒");
    }
    let mut r: Vec<(ArtTone, String)> = Vec::new();
    push_span(&mut r, pad(padding + 0));
    push_span(&mut r, lit(ArtTone::Granite, "║"));
    push_span(&mut r, lit(ArtTone::DarkStone, "▒▒"));
    push_span(&mut r, lit(ArtTone::LightStone, "╔══════════════════╗"));
    push_span(&mut r, lit(ArtTone::DarkStone, "▒▒"));
    push_span(&mut r, lit(ArtTone::Granite, "║"));
    assert(span_views(r@) =~= seq![
        (ArtTone::Plain, spaces((padding + 0) as nat)),
        (ArtTone::Granite, "║"@),
        (ArtTone::DarkStone, "▒▒"@),
        (ArtTone::LightStone, "╔══════════════════╗"@),
        (ArtTone::DarkStone, "▒▒"@),
        (ArtTone::Granite, "║"@),
    ]);
    r
}

fn forge_row_8_spans(padding: usize, frame: usize) -> (r: Vec<(ArtTone, String)>)
    requires
        padding <= usize::MAX - 7,

    ensures
        span_views(r@) == forge_row_8(padding as nat, frame as nat),
        row_width(span_views(r@)) == forge_row_width(padding as nat, frame as nat, 8),
{
    proof {
        reveal_strlit("\"'^~");
        reveal_strlit("\"^~");
        reveal_strlit("\"~'");
        reveal_strlit("\"~o~");
        reveal_strlit("'^~\"");
        reveal_strlit("'~^");
        reveal_strlit("'~o^");
        reveal_strlit("^'~");
        reveal_strlit("^'~o");
        reveal_strlit("^~\"");
        reveal_strlit("^~\"'");
        reveal_strlit("o^'~");
        reveal_strlit("o~\"~");
        reveal_strlit("~\"'");
        reveal_strlit("~\"'^");
        reveal_strlit("~\"^");
        reveal_strlit("~\"o~");
        reveal_strlit("~^'");
        reveal_strlit("~o^'");
        reveal_strlit("~o~\"");
        reveal_strlit("║");
        reveal_strlit("▒▒");
    }
    let mut r: Vec<(ArtTone, String)> = Vec::new();
    if frame == 0 {
        push_span(&mut r, pad(padding + 0));
        push_span(&mut r, lit(ArtTone::Granite, "║"));
        push_span(&mut r, lit(ArtTone::DarkStone, "▒▒"));
        push_span(&mut r, lit(ArtTone::LightStone, "║"));
        push_span(&mut r, lit(ArtTone::BrightYellow, "'~^"));
        push_span(&mut r, lit(ArtTone::FlameOrange, "\"~o~"));
        push_span(&mut r, lit(ArtTone::BrightYellow, "\"'^~"));
        push_span(&mut r, lit(ArtTone::FlameOrange, "^'~o"));
        push_span(&mut r, lit(ArtTone::BrightYellow, "~\"^"));
        push_span(&mut r, lit(ArtTone::LightStone, "║"));
        push_span(&mut r, lit(ArtTone::DarkStone, "▒▒"));
        push_span(&mut r, lit(ArtTone::Granite, "║"));
        assert(span_views(r@) =~= seq![
            (ArtTone::Plain, spaces((padding + 0) as nat)),
            (ArtTone::Granite, "║"@),
            (ArtTone::DarkStone, "▒▒"@),
            (ArtTone::LightStone, "║"@),
            (ArtTone::BrightYellow, "'~^"@),
            (ArtTone::FlameOrange, "\"~o~"@),
            (ArtTone::BrightYellow, "\"'^~"@),
            (ArtTone::FlameOrange, "^'~o"@),
            (ArtTone::BrightYellow, "~\"^"@),
            (ArtTone::LightStone, "║"@),
            (ArtTone::DarkStone, "▒▒"@),
            (ArtTone::Granite, "║"@),
        ]);
    } else if frame == 1 {
        push_span(&mut r, pad(padding + 0));
        push_span(&mut r, lit(ArtTone::Granite, "║"));
        push_span(&mut r, lit(ArtTone::DarkStone, "▒▒"));
        push_span(&mut r, lit(ArtTone::LightStone, "║"));
        push_span(&mut r, lit(ArtTone::BrightYellow, "~^'"));
        push_span(&mut r, lit(ArtTone::FlameOrange, "~o~\""));
        push_span(&mut r, lit(ArtTone::BrightYellow, "'^~\""));
        push_span(&mut r, lit(ArtTone::FlameOrange, "'~o^"));
        push_span(&mut r, lit(ArtTone::BrightYellow, "\"^~"));
        push_span(&mut r, lit(ArtTone::LightStone, "║"));
        push_span(&mut r, lit(ArtTone::DarkStone, "▒▒"));
        push_span(&mut r, lit(ArtTone::Granite, "║"));
        assert(span_views(r@) =~= seq![
            (ArtTone::Plain, spaces((padding + 0) as nat)),
            (ArtTone::Granite, "║"@),
            (ArtTone::DarkStone, "▒▒"@),
            (ArtTone::LightStone, "║"@),
            (ArtTone::BrightYellow, "~^'"@),
            (ArtTone::FlameOrange, "~o~\""@),
            (ArtTone::BrightYellow, "'^~\""@),
            (ArtTone::FlameOrange, "'~o^"@),
            (ArtTone::BrightYellow, "\"^~"@),
            (ArtTone::LightStone, "║"@),
            (ArtTone::DarkStone, "▒▒"@),
            (ArtTone::Granite, "║"@),
        ]);
    } else if frame == 2 {
        push_span(&mut r, pad(padding + 0));
        push_span(&mut r, lit(ArtTone::Granite, "║"));
        push_span(&mut r, lit(ArtTone::DarkStone, "▒▒"));
        push_span(&mut r, lit(ArtTone::LightStone, "║"));
        push_span(&mut r, lit(ArtTone::BrightYellow, "^'~"));
        push_span(&mut r, lit(ArtTone::FlameOrange, "o~\"~"));
        push_span(&mut r, lit(ArtTone::BrightYellow, "^~\"'"));
        push_span(&mut r, lit(ArtTone::FlameOrange, "~o^'"));
        push_span(&mut r, lit(ArtTone::BrightYellow, "^~\""));
        push_span(&mut r, lit(ArtTone::LightStone, "║"));
        push_span(&mut r, lit(ArtTone::DarkStone, "▒▒"));
        push_span(&mut r, lit(ArtTone::Granite, "║"));
        assert(span_views(r@) =~= seq![
            (ArtTone::Plain, spaces((padding + 0) as nat)),
            (ArtTone::Granite, "║"@),
            (ArtTone::DarkStone, "▒▒"@),
            (ArtTone::LightStone, "║"@),
            (ArtTone::BrightYellow, "^'~"@),
            (ArtTone::FlameOrange, "o~\"~"@),
            (ArtTone::BrightYellow, "^~\"'"@),
            (ArtTone::FlameOrange, "~o^'"@),
            (ArtTone::BrightYellow, "^~\""@),
            (ArtTone::LightStone, "║"@),
            (ArtTone::DarkStone, "▒▒"@),
            (ArtTone::Granite, "║"@),
        ]);
    } else {
        push_span(&mut r, pad(padding + 0));
        push_span(&mut r, lit(ArtTone::Granite, "║"));
        push_span(&mut r, lit(ArtTone::DarkStone, "▒▒"));
        push_span(&mut r, lit(ArtTone::LightStone, "║"));
        push_span(&mut r, lit(ArtTone::BrightYellow, "\"~'"));
        push_span(&mut r, lit(ArtTone::FlameOrange, "~\"o~"));
        push_span(&mut r, lit(ArtTone::BrightYellow, "~\"'^"));
        push_span(&mut r, lit(ArtTone::FlameOrange, "o^'~"));
        push_span(&mut r, lit(ArtTone::BrightYellow, "~\"'"));
        push_span(&mut r, lit(ArtTone::LightStone, "║"));
        push_span(&mut r, lit(ArtTone::DarkStone, "▒▒"));
        push_span(&mut r, lit(ArtTone::Granite, "║"));
        assert(span_views(r@) =~= seq![
            (ArtTone::Plain, spaces((padding + 0) as nat)),
            (ArtTone::Granite, "║"@),
            (ArtTone::DarkStone, "▒▒"@),
            (ArtTone::LightStone, "║"@),
            (ArtTone::BrightYellow, "\"~'"@),
            (ArtTone::FlameOrange, "~\"o~"@),
            (ArtTone::BrightYellow, "~\"'^"@),
            (ArtTone::FlameOrange, "o^'~"@),
            (ArtTone::BrightYellow, "~\"'"@),
            (ArtTone::LightStone, "║"@),
            (ArtTone::DarkStone, "▒▒"@),
            (ArtTone::Granite, "║"@),
        ]);
    }
    r
}

fn forge_row_9_spans(padding: usize, frame: usize) -> (r: Vec<(ArtTone, String)>)
    requires
        padding <= usize::MAX - 7,

    ensures
        span_views(r@) == forge_row_9(padding as nat, frame as nat),
        row_width(span_views(r@)) == forge_row_width(padding as nat, frame as nat, 9),
{
    proof {
        reveal_strlit("#~^~#OO");
        reveal_strlit("@o~^~o@O");
        reveal_strlit("@~o");
        reveal_strlit("O#~^~#O");
        reveal_strlit("^~#OO#~");
        reveal_strlit("^~o@O@o~");
        reveal_strlit("o@~");
        reveal_strlit("o~^~o@O@");
        reveal_strlit("~@o");
        reveal_strlit("~^~#OO#");
        reveal_strlit("~^~o@O@o");
        reveal_strlit("~o@");
        reveal_strlit("║");
        reveal_strlit("▒▒");
    }
    let mut r: Vec<(ArtTone, String)> = Vec::new();
    if frame == 0 {
        push_span(&mut r, pad(padding + 0));
        push_span(&mut r, lit(ArtTone::Granite, "║"));
        push_span(&mut r, lit(ArtTone::DarkStone, "▒▒"));
        push_span(&mut r, lit(ArtTone::LightStone, "║"));
        push_span(&mut r, lit(ArtTone::FlameOrange, "~o@"));
        push_span(&mut r, lit(ArtTone::DeepOrange, "O#~^~#O"));
        push_span(&mut r, lit(ArtTone::FlameOrange, "@o~^~o@O"));
        push_span(&mut r, lit(ArtTone::LightStone, "║"));
        push_span(&mut r, lit(ArtTone::DarkStone, "▒▒"));
        push_span(&mut r, lit(ArtTone::Granite, "║"));
        assert(span_views(r@) =~= seq![
            (ArtTone::Plain, spaces((padding + 0) as nat)),
            (ArtTone::Granite, "║"@),
            (ArtTone::DarkStone, "▒▒"@),
            (ArtTone::LightStone, "║"@),
            (ArtTone::FlameOrange, "~o@"@),
            (ArtTone::DeepOrange, "O#~^~#O"@),
            (ArtTone::FlameOrange, "@o~^~o@O"@),
            (ArtTone::LightStone, "║"@),
            (ArtTone::DarkStone, "▒▒"@),
            (ArtTone::Granite, "║"@),
        ]);
    } else if frame == 1 {
        push_span(&mut r, pad(padding + 0));
        push_span(&mut r, lit(ArtTone::Granite, "║"));
        push_span(&mut r, lit(ArtTone::DarkStone, "▒▒"));
        push_span(&mut r, lit(ArtTone::LightStone, "║"));
        push_span(&mut r, lit(ArtTone::FlameOrange, "o@~"));
        push_span(&mut r, lit(ArtTone::DeepOrange, "#~^~#OO"));
        push_span(&mut r, lit(ArtTone::FlameOrange, "o~^~o@O@"));
        push_span(&mut r, lit(ArtTone::LightStone, "║"));
        push_span(&mut r, lit(ArtTone::DarkStone, "▒▒"));
        push_span(&mut r, lit(ArtTone::Granite, "║"));
        assert(span_views(r@) =~= seq![
            (ArtTone::Plain, spaces((padding + 0) as nat)),
            (ArtTone::Granite, "║"@),
            (ArtTone::DarkStone, "▒▒"@),
            (ArtTone::LightStone, "║"@),
            (ArtTone::FlameOrange, "o@~"@),
            (ArtTone::DeepOrange, "#~^~#OO"@),
            (ArtTone::FlameOrange, "o~^~o@O@"@),
            (ArtTone::LightStone, "║"@),
            (ArtTone::DarkStone, "▒▒"@),
            (ArtTone::Granite, "║"@),
        ]);
    } else if frame == 2 {
        push_span(&mut r, pad(padding + 0));
        push_span(&mut r, lit(ArtTone::Granite, "║"));
        push_span(&mut r, lit(ArtTone::DarkStone, "▒▒"));
        push_span(&mut r, lit(ArtTone::LightStone, "║"));
        push_span(&mut r, lit(ArtTone::FlameOrange, "@~o"));
        push_span(&mut r, lit(ArtTone::DeepOrange, "~^~#OO#"));
        push_span(&mut r, lit(ArtTone::FlameOrange, "~^~o@O@o"));
        push_span(&mut r, lit(ArtTone::LightStone, "║"));
        push_span(&mut r, lit(ArtTone::DarkStone, "▒▒"));
        push_span(&mut r, lit(ArtTone::Granite, "║"));
        assert(span_views(r@) =~= seq![
            (ArtTone::Plain, spaces((padding + 0) as nat)),
            (ArtTone::Granite, "║"@),
            (ArtTone::DarkStone, "▒▒"@),
            (ArtTone::LightStone, "║"@),
            (ArtTone::FlameOrange, "@~o"@),
            (ArtTone::DeepOrange, "~^~#OO#"@),
            (ArtTone::FlameOrange, "~^~o@O@o"@),
            (ArtTone::LightStone, "║"@),
            (ArtTone::DarkStone, "▒▒"@),
            (ArtTone::Granite, "║"@),
        ]);
    } else {
        push_span(&mut r, pad(padding + 0));
        push_span(&mut r, lit(ArtTone::Granite, "║"));
        push_span(&mut r, lit(ArtTone::DarkStone, "▒▒"));
        push_span(&mut r, lit(ArtTone::LightStone, "║"));
        push_span(&mut r, lit(ArtTone::FlameOrange, "~@o"));
        push_span(&mut r, lit(ArtTone::DeepOrange, "^~#OO#~"));
        push_span(&mut r, lit(ArtTone::FlameOrange, "^~o@O@o~"));
        push_span(&mut r, lit(ArtTone::LightStone, "║"));
        push_span(&mut r, lit(ArtTone::DarkStone, "▒▒"));
        push_span(&mut r, lit(ArtTone::Granite, "║"));
        assert(span_views(r@) =~= seq![
            (ArtTone::Plain, spaces((padding + 0) as nat)),
            (ArtTone::Granite, "║"@),
            (ArtTone::DarkStone, "▒▒"@),
            (ArtTone::LightStone, "║"@),
            (ArtTone::FlameOrange, "~@o"@),
            (ArtTone::DeepOrange, "^~#OO#~"@),
            (ArtTone::FlameOrange, "^~o@O@o~"@),
            (ArtTone::LightStone, "║"@),
            (ArtTone::DarkStone, "▒▒"@),
            (ArtTone::Granite, "║"@),
        ]);
    }
    r
}

fn forge_row_10_spans(padding: usize, frame: usize) -> (r: Vec<(ArtTone, String)>)
    requires
        padding <= usize::MAX - 7,

    ensures
        span_views(r@) == forge_row_10(padding as nat, frame as nat),
        row_width(span_views(r@)) == forge_row_width(padding as nat, frame as nat, 10),
{
    proof {
        reveal_strlit("#@O");
        reveal_strlit("#O@#O@#o@#");
        reveal_strlit("#o@O@");
        reveal_strlit("@#O");
        reveal_strlit("@#O@#O@#o@");
        reveal_strlit("@#o@O");
        reveal_strlit("@O#");
        reveal_strlit("O#@");
        reveal_strlit("O@#O@#o@#O");
        reveal_strlit("O@#o@");
        reveal_strlit("o@#O@#O@#o");
        reveal_strlit("o@O@#");
        reveal_strlit("║");
        reveal_strlit("▒▒");
    }
    let mut r: Vec<(ArtTone, String)> = Vec::new();
    if frame == 0 {
        push_span(&mut r, pad(padding + 0));
        push_span(&mut r, lit(ArtTone::Granite, "║"));
        push_span(&mut r, lit(ArtTone::DarkStone, "▒▒"));
        push_span(&mut r, lit(ArtTone::LightStone, "║"));
        push_span(&mut r, lit(ArtTone::DeepOrange, "@O#"));
        push_span(&mut r, lit(ArtTone::EmberRed, "o@#O@#O@#o"));
        push_span(&mut r, lit(ArtTone::DeepOrange, "O@#o@"));
        push_span(&mut r, lit(ArtTone::LightStone, "║"));
        push_span(&mut r, lit(ArtTone::DarkStone, "▒▒"));
        push_span(&mut r, lit(ArtTone::Granite, "║"));
        assert(span_views(r@) =~= seq![
            (ArtTone::Plain, spaces((padding + 0) as nat)),
            (ArtTone::Granite, "║"@),
            (ArtTone::DarkStone, "▒▒"@),
            (ArtTone::LightStone, "║"@),
            (ArtTone::DeepOrange, "@O#"@),
            (ArtTone::EmberRed, "o@#O@#O@#o"@),
            (ArtTone::DeepOrange, "O@#o@"@),
            (ArtTone::LightStone, "║"@),
            (ArtTone::DarkStone, "▒▒"@),
            (ArtTone::Granite, "║"@),
        ]);
    } else if frame == 1 {
        push_span(&mut r, pad(padding + 0));
        push_span(&mut r, lit(ArtTone::Granite, "║"));
        push_span(&mut r, lit(ArtTone::DarkStone, "▒▒"));
        push_span(&mut r, lit(ArtTone::LightStone, "║"));
        push_span(&mut r, lit(ArtTone::DeepOrange, "O#@"));
        push_span(&mut r, lit(ArtTone::EmberRed, "@#O@#O@#o@"));
        push_span(&mut r, lit(ArtTone::DeepOrange, "@#o@O"));
        push_span(&mut r, lit(ArtTone::LightStone, "║"));
        push_span(&mut r, lit(ArtTone::DarkStone, "▒▒"));
        push_span(&mut r, lit(ArtTone::Granite, "║"));
        assert(span_views(r@) =~= seq![
            (ArtTone::Plain, spaces((padding + 0) as nat)),
            (ArtTone::Granite, "║"@),
            (ArtTone::DarkStone, "▒▒"@),
            (ArtTone::LightStone, "║"@),
            (ArtTone::DeepOrange, "O#@"@),
            (ArtTone::EmberRed, "@#O@#O@#o@"@),
            (ArtTone::DeepOrange, "@#o@O"@),
            (ArtTone::LightStone, "║"@),
            (ArtTone::DarkStone, "▒▒"@),
            (ArtTone::Granite, "║"@),
        ]);
    } else if frame == 2 {
        push_span(&mut r, pad(padding + 0));
        push_span(&mut r, lit(ArtTone::Granite, "║"));
        push_span(&mut r, lit(ArtTone::DarkStone, "▒▒"));
        push_span(&mut r, lit(ArtTone::LightStone, "║"));
        push_span(&mut r, lit(ArtTone::DeepOrange, "#@O"));
        push_span(&mut r, lit(ArtTone::EmberRed, "#O@#O@#o@#"));
        push_span(&mut r, lit(ArtTone::DeepOrange, "#o@O@"));
        push_span(&mut r, lit(ArtTone::LightStone, "║"));
        push_span(&mut r, lit(ArtTone::DarkStone, "▒▒"));
        push_span(&mut r, lit(ArtTone::Granite, "║"));
        assert(span_views(r@) =~= seq![
            (ArtTone::Plain, spaces((padding + 0) as nat)),
            (ArtTone::Granite, "║"@),
            (ArtTone::DarkStone, "▒▒"@),
            (ArtTone::LightStone, "║"@),
            (ArtTone::DeepOrange, "#@O"@),
            (ArtTone::EmberRed, "#O@#O@#o@#"@),
            (ArtTone::DeepOrange, "#o@O@"@),
            (ArtTone::LightStone, "║"@),
            (ArtTone::DarkStone, "▒▒"@),
            (ArtTone::Granite, "║"@),
        ]);
    } else {
        push_span(&mut r, pad(padding + 0));
        push_span(&mut r, lit(ArtTone::Granite, "║"));
        push_span(&mut r, lit(ArtTone::DarkStone, "▒▒"));
        push_span(&mut r, lit(ArtTone::LightStone, "║"));
        push_span(&mut r, lit(ArtTone::DeepOrange, "@#O"));
        push_span(&mut r, lit(ArtTone::EmberRed, "O@#O@#o@#O"));
        push_span(&mut r, lit(ArtTone::DeepOrange, "o@O@#"));
        push_span(&mut r, lit(ArtTone::LightStone, "║"));
        push_span(&mut r, lit(ArtTone::DarkStone, "▒▒"));
        push_span(&mut r, lit(ArtTone::Granite, "║"));
        assert(span_views(r@) =~= seq![
            (ArtTone::Plain, spaces((padding + 0) as nat)),
            (ArtTone::Granite, "║"@),
            (ArtTone::DarkStone, "▒▒"@),
            (ArtTone::LightStone, "║"@),
            (ArtTone::DeepOrange, "@#O"@),
            (ArtTone::EmberRed, "O@#O@#o@#O"@),
            (ArtTone::DeepOrange, "o@O@#"@),
            (ArtTone::LightStone, "║"@),
            (ArtTone::DarkStone, "▒▒"@),
            (ArtTone::Granite, "║"@),
        ]);
    }
    r
}

fn forge_row_11_spans(padding: usize, frame: usize) -> (r: Vec<(ArtTone, String)>)
    requires
        padding <= usize::MAX - 7,

    ensures
        span_views(r@) == forge_row_11(padding as nat, frame as nat),
        row_width(span_views(r@)) == forge_row_width(padding as nat, frame as nat, 11),
{
    proof {
        reveal_strlit("##O#@@#O");
        reveal_strlit("#@oO@o");
        reveal_strlit("#O##O#@@");
        reveal_strlit("#O@o");
        reveal_strlit("@#O##O#@");
        reveal_strlit("@O#@oO");
        reveal_strlit("@o#O");
        reveal_strlit("O##O#@@#");
        reveal_strlit("O#@oO@");
        reveal_strlit("O@o#");
        reveal_strlit("o#O@");
        reveal_strlit("o@O#@o");
        reveal_strlit("║");
        reveal_strlit("▒▒");
    }
    let mut r: Vec<(ArtTone, String)> = Vec::new();
    if frame == 0 {
        push_span(&mut r, pad(padding + 0));
        push_span(&mut r, lit(ArtTone::Granite, "║"));
        push_span(&mut r, lit(ArtTone::DarkStone, "▒▒"));
        push_span(&mut r, lit(ArtTone::LightStone, "║"));
        push_span(&mut r, lit(ArtTone::EmberRed, "#O@o"));
        push_span(&mut r, lit(ArtTone::EmberRed, "@#O##O#@"));
        push_span(&mut r, lit(ArtTone::EmberRed, "o@O#@o"));
        push_span(&mut r, lit(ArtTone::LightStone, "║"));
        push_span(&mut r, lit(ArtTone::DarkStone, "▒▒"));
        push_span(&mut r, lit(ArtTone::Granite, "║"));
        assert(span_views(r@) =~= seq![
            (ArtTone::Plain, spaces((padding + 0) as nat)),
            (ArtTone::Granite, "║"@),
            (ArtTone::DarkStone, "▒▒"@),
            (ArtTone::LightStone, "║"@),
            (ArtTone::EmberRed, "#O@o"@),
            (ArtTone::EmberRed, "@#O##O#@"@),
            (ArtTone::EmberRed, "o@O#@o"@),
            (ArtTone::LightStone, "║"@),
            (ArtTone::DarkStone, "▒▒"@),
            (ArtTone::Granite, "║"@),
        ]);
    } else if frame == 1 {
        push_span(&mut r, pad(padding + 0));
        push_span(&mut r, lit(ArtTone::Granite, "║"));
        push_span(&mut r, lit(ArtTone::DarkStone, "▒▒"));
        push_span(&mut r, lit(ArtTone::LightStone, "║"));
        push_span(&mut r, lit(ArtTone::EmberRed, "O@o#"));
        push_span(&mut r, lit(ArtTone::EmberRed, "#O##O#@@"));
        push_span(&mut r, lit(ArtTone::EmberRed, "@O#@oO"));
        push_span(&mut r, lit(ArtTone::LightStone, "║"));
        push_span(&mut r, lit(ArtTone::DarkStone, "▒▒"));
        push_span(&mut r, lit(ArtTone::Granite, "║"));
        assert(span_views(r@) =~= seq![
            (ArtTone::Plain, spaces((padding + 0) as nat)),
            (ArtTone::Granite, "║"@),
            (ArtTone::DarkStone, "▒▒"@),
            (ArtTone::LightStone, "║"@),
            (ArtTone::EmberRed, "O@o#"@),
            (ArtTone::EmberRed, "#O##O#@@"@),
            (ArtTone::EmberRed, "@O#@oO"@),
            (ArtTone::LightStone, "║"@),
            (ArtTone::DarkStone, "▒▒"@),
            (ArtTone::Granite, "║"@),
        ]);
    } else if frame == 2 {
        push_span(&mut r, pad(padding + 0));
        push_span(&mut r, lit(ArtTone::Granite, "║"));
        push_span(&mut r, lit(ArtTone::DarkStone, "▒▒"));
        push_span(&mut r, lit(ArtTone::LightStone, "║"));
        push_span(&mut r, lit(ArtTone::EmberRed, "@o#O"));
        push_span(&mut r, lit(ArtTone::EmberRed, "O##O#@@#"));
        push_span(&mut r, lit(ArtTone::EmberRed, "O#@oO@"));
        push_span(&mut r, lit(ArtTone::LightStone, "║"));
        push_span(&mut r, lit(ArtTone::DarkStone, "▒▒"));
        push_span(&mut r, lit(ArtTone::Granite, "║"));
        assert(span_views(r@) =~= seq![
            (ArtTone::Plain, spaces((padding + 0) as nat)),
            (ArtTone::Granite, "║"@),
            (ArtTone::DarkStone, "▒▒"@),
            (ArtTone::LightStone, "║"@),
            (ArtTone::EmberRed, "@o#O"@),
            (ArtTone::EmberRed, "O##O#@@#"@),
            (ArtTone::EmberRed, "O#@oO@"@),
            (ArtTone::LightStone, "║"@),
            (ArtTone::DarkStone, "▒▒"@),
            (ArtTone::Granite, "║"@),
        ]);
    } else {
        push_span(&mut r, pad(padding + 0));
        push_span(&mut r, lit(ArtTone::Granite, "║"));
        push_span(&mut r, lit(ArtTone::DarkStone, "▒▒"));
        push_span(&mut r, lit(ArtTone::LightStone, "║"));
        push_span(&mut r, lit(ArtTone::EmberRed, "o#O@"));
        push_span(&mut r, lit(ArtTone::EmberRed, "##O#@@#O"));
        push_span(&mut r, lit(ArtTone::EmberRed, "#@oO@o"));
        push_span(&mut r, lit(ArtTone::LightStone, "║"));
        push_span(&mut r, lit(ArtTone::DarkStone, "▒▒"));
        push_span(&mut r, lit(ArtTone::Granite, "║"));
        assert(span_views(r@) =~= seq![
            (ArtTone::Plain, spaces((padding + 0) as nat)),
            (ArtTone::Granite, "║"@),
            (ArtTone::DarkStone, "▒▒"@),
            (ArtTone::LightStone, "║"@),
            (ArtTone::EmberRed, "o#O@"@),
            (ArtTone::EmberRed, "##O#@@#O"@),
            (ArtTone::EmberRed, "#@oO@o"@),
            (ArtTone::LightStone, "║"@),
            (ArtTone::DarkStone, "▒▒"@),
            (ArtTone::Granite, "║"@),
        ]);
    }
    r
}

fn forge_row_12_spans(padding: usize, frame: usize) -> (r: Vec<(ArtTone, String)>)
    requires
        padding <= usize::MAX - 7,

    ensures
        span_views(r@) == forge_row_12(padding as nat, frame as nat),
        row_width(span_views(r@)) == forge_row_width(padding as nat, frame as nat, 12),
{
    proof {
        reveal_strlit("#@O");
        reveal_strlit("#O@");
        reveal_strlit("#O@O##O@O#@O");
        reveal_strlit("@#O");
        reveal_strlit("@O#");
        reveal_strlit("@O##O@O#@O#O");
        reveal_strlit("O##O@O#@O#O@");
        reveal_strlit("O#@");
        reveal_strlit("O@#");
        reveal_strlit("O@O##O@O#@O#");
        reveal_strlit("║");
        reveal_strlit("▒▒");
    }
    let mut r: Vec<(ArtTone, String)> = Vec::new();
    if frame == 0 {
        push_span(&mut r, pad(padding + 0));
        push_span(&mut r, lit(ArtTone::Granite, "║"));
        push_span(&mut r, lit(ArtTone::DarkStone, "▒▒"));
        push_span(&mut r, lit(ArtTone::LightStone, "║"));
        push_span(&mut r, lit(ArtTone::EmberRed, "O#@"));
        push_span(&mut r, lit(ArtTone::EmberRed, "#O@O##O@O#@O"));
        push_span(&mut r, lit(ArtTone::EmberRed, "@#O"));
        push_span(&mut r, lit(ArtTone::LightStone, "║"));
        push_span(&mut r, lit(ArtTone::DarkStone, "▒▒"));
        push_span(&mut r, lit(ArtTone::Granite, "║"));
        assert(span_views(r@) =~= seq![
            (ArtTone::Plain, spaces((padding + 0) as nat)),
            (ArtTone::Granite, "║"@),
            (ArtTone::DarkStone, "▒▒"@),
            (ArtTone::LightStone, "║"@),
            (ArtTone::EmberRed, "O#@"@),
            (ArtTone::EmberRed, "#O@O##O@O#@O"@),
            (ArtTone::EmberRed, "@#O"@),
            (ArtTone::LightStone, "║"@),
            (ArtTone::DarkStone, "▒▒"@),
            (ArtTone::Granite, "║"@),
        ]);
    } else if frame == 1 {
        push_span(&mut r, pad(padding + 0));
        push_span(&mut r, lit(ArtTone::Granite, "║"));
        push_span(&mut r, lit(ArtTone::DarkStone, "▒▒"));
        push_span(&mut r, lit(ArtTone::LightStone, "║"));
        push_span(&mut r, lit(ArtTone::EmberRed, "#@O"));
        push_span(&mut r, lit(ArtTone::EmberRed, "O@O##O@O#@O#"));
        push_span(&mut r, lit(ArtTone::EmberRed, "#O@"));
        push_span(&mut r, lit(ArtTone::LightStone, "║"));
        push_span(&mut r, lit(ArtTone::DarkStone, "▒▒"));
        push_span(&mut r, lit(ArtTone::Granite, "║"));
        assert(span_views(r@) =~= seq![
            (ArtTone::Plain, spaces((padding + 0) as nat)),
            (ArtTone::Granite, "║"@),
            (ArtTone::DarkStone, "▒▒"@),
            (ArtTone::LightStone, "║"@),
            (ArtTone::EmberRed, "#@O"@),
            (ArtTone::EmberRed, "O@O##O@O#@O#"@),
            (ArtTone::EmberRed, "#O@"@),
            (ArtTone::LightStone, "║"@),
            (ArtTone::DarkStone, "▒▒"@),
            (ArtTone::Granite, "║"@),
        ]);
    } else if frame == 2 {
        push_span(&mut r, pad(padding + 0));
        push_span(&mut r, lit(ArtTone::Granite, "║"));
        push_span(&mut r, lit(ArtTone::DarkStone, "▒▒"));
        push_span(&mut r, lit(ArtTone::LightStone, "║"));
        push_span(&mut r, lit(ArtTone::EmberRed, "@O#"));
        push_span(&mut r, lit(ArtTone::EmberRed, "@O##O@O#@O#O"));
        push_span(&mut r, lit(ArtTone::EmberRed, "O@#"));
        push_span(&mut r, lit(ArtTone::LightStone, "║"));
        push_span(&mut r, lit(ArtTone::DarkStone, "▒▒"));
        push_span(&mut r, lit(ArtTone::Granite, "║"));
        assert(span_views(r@) =~= seq![
            (ArtTone::Plain, spaces((padding + 0) as nat)),
            (ArtTone::Granite, "║"@),
            (ArtTone::DarkStone, "▒▒"@),
            (ArtTone::LightStone, "║"@),
            (ArtTone::EmberRed, "@O#"@),
            (ArtTone::EmberRed, "@O##O@O#@O#O"@),
            (ArtTone::EmberRed, "O@#"@),
            (ArtTone::LightStone, "║"@),
            (ArtTone::DarkStone, "▒▒"@),
            (ArtTone::Granite, "║"@),
        ]);
    } else {
        push_span(&mut r, pad(padding + 0));
        push_span(&mut r, lit(ArtTone::Granite, "║"));
        push_span(&mut r, lit(ArtTone::DarkStone, "▒▒"));
        push_span(&mut r, lit(ArtTone::LightStone, "║"));
        push_span(&mut r, lit(ArtTone::EmberRed, "O@#"));
        push_span(&mut r, lit(ArtTone::EmberRed, "O##O@O#@O#O@"));
        push_span(&mut r, lit(ArtTone::EmberRed, "@#O"));
        push_span(&mut r, lit(ArtTone::LightStone, "║"));
        push_span(&mut r, lit(ArtTone::DarkStone, "▒▒"));
        push_span(&mut r, lit(ArtTone::Granite, "║"));
        assert(span_views(r@) =~= seq![
            (ArtTone::Plain, spaces((padding + 0) as nat)),
            (ArtTone::Granite, "║"@),
            (ArtTone::DarkStone, "▒▒"@),
            (ArtTone::LightStone, "║"@),
            (ArtTone::EmberRed, "O@#"@),
            (ArtTone::EmberRed, "O##O@O#@O#O@"@),
            (ArtTone::EmberRed, "@#O"@),
            (ArtTone::LightStone, "║"@),
            (ArtTone::DarkStone, "▒▒"@),
            (ArtTone::Granite, "║"@),
        ]);
    }
    r
}

fn forge_row_13_spans(padding: usize, frame: usize) -> (r: Vec<(ArtTone, String)>)
    requires
        padding <= usize::MAX - 7,

    ensures
        span_views(r@) == forge_row_13(padding as nat, frame as nat),
        row_width(span_views(r@)) == forge_row_width(padding as nat, frame as nat, 13),
{
    proof {
        reveal_strlit("║");
        reveal_strlit("▄█");
        reveal_strlit("▄██");
        reveal_strlit("▄░▓");
        reveal_strlit("▄▓█");
        reveal_strlit("▄▓░");
        reveal_strlit("█▄");
        reveal_strlit("█▄▓");
        reveal_strlit("██▄");
        reveal_strlit("███");
        reveal_strlit("░▓");
        reveal_strlit("░▓▄");
        reveal_strlit("▒▒");
        reveal_strlit("▓▄");
        reveal_strlit("▓░");
        reveal_strlit("▓░▄");
    }
    let mut r: Vec<(ArtTone, String)> = Vec::new();
    if frame == 0 {
        push_span(&mut r, pad(padding + 0));
        push_span(&mut r, lit(ArtTone::Granite, "║"));
        push_span(&mut r, lit(ArtTone::DarkStone, "▒▒"));
        push_span(&mut r, lit(ArtTone::LightStone, "║"));
        push_span(&mut r, lit(ArtTone::CoalBlack, "▄█"));
        push_span(&mut r, lit(ArtTone::EmberRed, "▓░"));
        push_span(&mut r, lit(ArtTone::CoalBlack, "▄██"));
        push_span(&mut r, lit(ArtTone::EmberRed, "▓░"));
        push_span(&mut r, lit(ArtTone::CoalBlack, "███"));
        push_span(&mut r, lit(ArtTone::EmberRed, "▄░▓"));
        push_span(&mut r, lit(ArtTone::CoalBlack, "█▄▓"));
        push_span(&mut r, lit(ArtTone::LightStone, "║"));
        push_span(&mut r, lit(ArtTone::DarkStone, "▒▒"));
        push_span(&mut r, lit(ArtTone::Granite, "║"));
        assert(span_views(r@) =~= seq![
            (ArtTone::Plain, spaces((padding + 0) as nat)),
            (ArtTone::Granite, "║"@),
            (ArtTone::DarkStone, "▒▒"@),
            (ArtTone::LightStone, "║"@),
            (ArtTone::CoalBlack, "▄█"@),
            (ArtTone::EmberRed, "▓░"@),
            (ArtTone::CoalBlack, "▄██"@),
            (ArtTone::EmberRed, "▓░"@),
            (ArtTone::CoalBlack, "███"@),
            (ArtTone::EmberRed, "▄░▓"@),
            (ArtTone::CoalBlack, "█▄▓"@),
            (ArtTone::LightStone, "║"@),
            (ArtTone::DarkStone, "▒▒"@),
            (ArtTone::Granite, "║"@),
        ]);
    } else if frame == 1 {
        push_span(&mut r, pad(padding + 0));
        push_span(&mut r, lit(ArtTone::Granite, "║"));
        push_span(&mut r, lit(ArtTone::DarkStone, "▒▒"));
        push_span(&mut r, lit(ArtTone::LightStone, "║"));
        push_span(&mut r, lit(ArtTone::CoalBlack, "█▄"));
        push_span(&mut r, lit(ArtTone::EmberRed, "░▓"));
        push_span(&mut r, lit(ArtTone::CoalBlack, "██▄"));
        push_span(&mut r, lit(ArtTone::EmberRed, "░▓"));
        push_span(&mut r, lit(ArtTone::CoalBlack, "███"));
        push_span(&mut r, lit(ArtTone::EmberRed, "░▓▄"));
        push_span(&mut r, lit(ArtTone::CoalBlack, "▄▓█"));
        push_span(&mut r, lit(ArtTone::LightStone, "║"));
        push_span(&mut r, lit(ArtTone::DarkStone, "▒▒"));
        push_span(&mut r, lit(ArtTone::Granite, "║"));
        assert(span_views(r@) =~= seq![
            (ArtTone::Plain, spaces((padding + 0) as nat)),
            (ArtTone::Granite, "║"@),
            (ArtTone::DarkStone, "▒▒"@),
            (ArtTone::LightStone, "║"@),
            (ArtTone::CoalBlack, "█▄"@),
            (ArtTone::EmberRed, "░▓"@),
            (ArtTone::CoalBlack, "██▄"@),
            (ArtTone::EmberRed, "░▓"@),
            (ArtTone::CoalBlack, "███"@),
            (ArtTone::EmberRed, "░▓▄"@),
            (ArtTone::CoalBlack, "▄▓█"@),
            (ArtTone::LightStone, "║"@),
            (ArtTone::DarkStone, "▒▒"@),
            (ArtTone::Granite, "║"@),
        ]);
    } else if frame == 2 {
        push_span(&mut r, pad(padding + 0));
        push_span(&mut r, lit(ArtTone::Granite, "║"));
        push_span(&mut r, lit(ArtTone::DarkStone, "▒▒"));
        push_span(&mut r, lit(ArtTone::LightStone, "║"));
        push_span(&mut r, lit(ArtTone::CoalBlack, "▄█"));
        push_span(&mut r, lit(ArtTone::EmberRed, "░▓"));
        push_span(&mut r, lit(ArtTone::CoalBlack, "▄██"));
        push_span(&mut r, lit(ArtTone::EmberRed, "▓▄"));
        push_span(&mut r, lit(ArtTone::CoalBlack, "███"));
        push_span(&mut r, lit(ArtTone::EmberRed, "▓░▄"));
        push_span(&mut r, lit(ArtTone::CoalBlack, "█▄▓"));
        push_span(&mut r, lit(ArtTone::LightStone, "║"));
        push_span(&mut r, lit(ArtTone::DarkStone, "▒▒"));
        push_span(&mut r, lit(ArtTone::Granite, "║"));
        assert(span_views(r@) =~= seq![
            (ArtTone::Plain, spaces((padding + 0) as nat)),
            (ArtTone::Granite, "║"@),
            (ArtTone::DarkStone, "▒▒"@),
            (ArtTone::LightStone, "║"@),
            (ArtTone::CoalBlack, "▄█"@),
            (ArtTone::EmberRed, "░▓"@),
            (ArtTone::CoalBlack, "▄██"@),
            (ArtTone::EmberRed, "▓▄"@),
            (ArtTone::CoalBlack, "███"@),
            (ArtTone::EmberRed, "▓░▄"@),
            (ArtTone::CoalBlack, "█▄▓"@),
            (ArtTone::LightStone, "║"@),
            (ArtTone::DarkStone, "▒▒"@),
            (ArtTone::Granite, "║"@),
        ]);
    } else {
        push_span(&mut r, pad(padding + 0));
        push_span(&mut r, lit(ArtTone::Granite, "║"));
        push_span(&mut r, lit(ArtTone::DarkStone, "▒▒"));
        push_span(&mut r, lit(ArtTone::LightStone, "║"));
        push_span(&mut r, lit(ArtTone::CoalBlack, "█▄"));
        push_span(&mut r, lit(ArtTone::EmberRed, "▓▄"));
        push_span(&mut r, lit(ArtTone::CoalBlack, "██▄"));
        push_span(&mut r, lit(ArtTone::EmberRed, "░▓"));
        push_span(&mut r, lit(ArtTone::CoalBlack, "███"));
        push_span(&mut r, lit(ArtTone::EmberRed, "▄▓░"));
        push_span(&mut r, lit(ArtTone::CoalBlack, "▄▓█"));
        push_span(&mut r, lit(ArtTone::LightStone, "║"));
        push_span(&mut r, lit(ArtTone::DarkStone, "▒▒"));
        push_span(&mut r, lit(ArtTone::Granite, "║"));
        assert(span_views(r@) =~= seq![
            (ArtTone::Plain, spaces((padding + 0) as nat)),
            (ArtTone::Granite, "║"@),
            (ArtTone::DarkStone, "▒▒"@),
            (ArtTone::LightStone, "║"@),
            (ArtTone::CoalBlack, "█▄"@),
            (ArtTone::EmberRed, "▓▄"@),
            (ArtTone::CoalBlack, "██▄"@),
            (ArtTone::EmberRed, "░▓"@),
            (ArtTone::CoalBlack, "███"@),
            (ArtTone::EmberRed, "▄▓░"@),
            (ArtTone::CoalBlack, "▄▓█"@),
            (ArtTone::LightStone, "║"@),
            (ArtTone::DarkStone, "▒▒"@),
            (ArtTone::Granite, "║"@),
        ]);
    }
    r
}

fn forge_row_14_spans(padding: usize, frame: usize) -> (r: Vec<(ArtTone, String)>)
    requires
        padding <= usize::MAX - 7,

    ensures
        span_views(r@) == forge_row_14(padding as nat, frame as nat),
        row_width(span_views(r@)) == forge_row_width(padding as nat, frame as nat, 14),
{
    proof {
        reveal_strlit("║");
        reveal_strlit("██████████████████");
        reveal_strlit("▒▒");
    }
    let mut r: Vec<(ArtTone, String)> = Vec::new();
    push_span(&mut r, pad(padding + 0));
    push_span(&mut r, lit(ArtTone::Granite, "║"));
    push_span(&mut r, lit(ArtTone::DarkStone, "▒▒"));
    push_span(&mut r, lit(ArtTone::LightStone, "║"));
    push_span(&mut r, lit(ArtTone::CoalBlack, "██████████████████"));
    push_span(&mut r, lit(ArtTone::LightStone, "║"));
    push_span(&mut r, lit(ArtTone::DarkStone, "▒▒"));
    push_span(&mut r, lit(ArtTone::Granite, "║"));
    assert(span_views(r@) =~= seq![
        (ArtTone::Plain, spaces((padding + 0) as nat)),
        (ArtTone::Granite, "║"@),
        (ArtTone::DarkStone, "▒▒"@),
        (ArtTone::LightStone, "║"@),
        (ArtTone::CoalBlack, "██████████████████"@),
        (ArtTone::LightStone, "║"@),
        (ArtTone::DarkStone, "▒▒"@),
        (ArtTone::Granite, "║"@),
    ]);
    r
}

fn forge_row_15_spans(padding: usize, frame: usize) -> (r: Vec<(ArtTone, String)>)
    requires
        padding <= usize::MAX - 7,

    ensures
        span_views(r@) == forge_row_15(padding as nat, frame as nat),
        row_width(span_views(r@)) == forge_row_width(padding as nat, frame as nat, 15),
{
    proof {
        reveal_strlit("║");
        reveal_strlit("╚══════════════════╝");
        reveal_strlit("▒▒");
    }
    let mut r: Vec<(ArtTone, String)> = Vec::new();
    push_span(&mut r, pad(padding + 0));
    push_span(&mut r, lit(ArtTone::Granite, "║"));
    push_span(&mut r, lit(ArtTone::DarkStone, "▒▒"));
    push_span(&mut r, lit(ArtTone::LightStone, "╚══════════════════╝"));
    push_span(&mut r, lit(ArtTone::DarkStone, "▒▒"));
    push_span(&mut r, lit(ArtTone::Granite, "║"));
    assert(span_views(r@) =~= seq![
        (ArtTone::Plain, spaces((padding + 0) as nat)),
        (ArtTone::Granite, "║"@),
        (ArtTone::DarkStone, "▒▒"@),
        (ArtTone::LightStone, "╚══════════════════╝"@),
        (ArtTone::DarkStone, "▒▒"@),
        (ArtTone::Granite, "║"@),
    ]);
    r
}

fn forge_row_16_spans(padding: usize, frame: usize) -> (r: Vec<(ArtTone, String)>)
    requires
        padding <= usize::MAX - 7,

    ensures
        span_views(r@) == forge_row_16(padding as nat, frame as nat),
        row_width(span_views(r@)) == forge_row_width(padding as nat, frame as nat, 16),
{
    proof {
        reveal_strlit("╚════════════════════════╝");
    }
    let mut r: Vec<(ArtTone, String)> = Vec::new();
    push_span(&mut r, pad(padding + 0));
    push_span(&mut r, lit(ArtTone::Granite, "╚════════════════════════╝"));
    assert(span_views(r@) =~= seq![
        (ArtTone::Plain, spaces((padding + 0) as nat)),
        (ArtTone::Granite, "╚════════════════════════╝"@),
    ]);
    r
}

fn forge_row_17_spans(padding: usize, frame: usize) -> (r: Vec<(ArtTone, String)>)
    requires
        padding <= usize::MAX - 7,

    ensures
        span_views(r@) == forge_row_17(padding as nat, frame as nat),
        row_width(span_views(r@)) == forge_row_width(padding as nat, frame as nat, 17),
{
    proof {
        reveal_strlit("▀▀▀▀▀▀▀▀▀▀▀▀▀▀▀▀▀▀");
    }
    let mut r: Vec<(ArtTone, String)> = Vec::new();
    push_span(&mut r, pad(padding + 3));
    push_span(&mut r, lit(ArtTone::DarkStone, "▀▀▀▀▀▀▀▀▀▀▀▀▀▀▀▀▀▀"));
    assert(span_views(r@) =~= seq![
        (ArtTone::Plain, spaces((padding + 3) as nat)),
        (ArtTone::DarkStone, "▀▀▀▀▀▀▀▀▀▀▀▀▀▀▀▀▀▀"@),
    ]);
    r
}

/// Columns of blank padding, after `padding`, before row `i` of the forge art.
pub open spec fn forge_offset(i: int) -> nat {
    if i == 0 {
        7
    } else if i == 1 {
        5
    } else if i == 2 {
        4
    } else if i == 3 {
        3
    } else if i == 4 {
        2
    } else if i == 17 {
        3
    } else {
        0
    }
}

/// The forge at animation `frame` (0 to 3), shifted right by `padding`
/// columns: eighteen rows; the five flame rows start `padding` plus 7, 5, 4,
/// 3 and 2 columns in, the furnace rows after them are `padding` plus 26
/// columns wide, and the base below them starts `padding` plus 3 columns in.
pub fn forge_art(padding: usize, frame: usize) -> (rows: Vec<Vec<(ArtTone, String)>>)
    requires
        frame < 4,
        padding <= usize::MAX - 7,
    ensures
        art_views(rows@) == spec_forge_art(padding as nat, frame as nat),
        rows@.len() == 18,
        forall|i: int| (0 <= i < 5 || i == 17) ==> #[trigger] art_views(rows@)[i][0] == (ArtTone::Plain, spaces((padding + forge_offset(i)) as nat)),
        forall|i: int| 5 <= i < 17 ==> #[trigger] row_width(art_views(rows@)[i]) == padding + 26,
        forall|i: int| 0 <= i < rows@.len() ==> #[trigger] row_width(art_views(rows@)[i]) == forge_row_width(padding as nat, frame as nat, i),
{
    let mut rows: Vec<Vec<(ArtTone, String)>> = Vec::new();
    rows.push(forge_row_0_spans(padding, frame));
    rows.push(forge_row_1_spans(padding, frame));
    rows.push(forge_row_2_spans(padding, frame));
    rows.push(forge_row_3_spans(padding, frame));
    rows.push(forge_row_4_spans(padding, frame));
    rows.push(forge_row_5_spans(padding, frame));
    rows.push(forge_row_6_spans(padding, frame));
    rows.push(forge_row_7_spans(padding, frame));
    rows.push(forge_row_8_spans(padding, frame));
    rows.push(forge_row_9_spans(padding, frame));
    rows.push(forge_row_10_spans(padding, frame));
    rows.push(forge_row_11_spans(padding, frame));
    rows.push(forge_row_12_spans(padding, frame));
    rows.push(forge_row_13_spans(padding, frame));
    rows.push(forge_row_14_spans(padding, frame));
    rows.push(forge_row_15_spans(padding, frame));
    rows.push(forge_row_16_spans(padding, frame));
    rows.push(forge_row_17_spans(padding, frame));
    assert(art_views(rows@) =~= spec_forge_art(padding as nat, frame as nat));
    rows
}

} // verus!
