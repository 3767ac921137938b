//! The dragon of the dungeon's boss room.
use vstd::prelude::*;

use super::{art_views, lit, push_span, row_width, span_views, ArtTone};

verus! {

/// Row 0 of the dragon art.
pub open spec fn dragon_row_0() -> Seq<(ArtTone, Seq<char>)> {
    seq![
        (ArtTone::ForestGreen, "       "@),
        (ArtTone::LimeGreen, "\\"@),
        (ArtTone::ForestGreen, "(______"@),
        (ArtTone::ForestGreen, "     "@),
        (ArtTone::ForestGreen, "______"@),
        (ArtTone::LimeGreen, ")"@),
        (ArtTone::LimeGreen, "/"@),
    ]
}

/// Row 1 of the dragon art.
pub open spec fn dragon_row_1() -> Seq<(ArtTone, Seq<char>)> {
    seq![
        (ArtTone::LimeGreen, "       /"@),
        (ArtTone::PaleGreen, "`"@),
        (ArtTone::ForestGreen, ".----."@),
        (ArtTone::LimeGreen, "\\"@),
        (ArtTone::ForestGreen, "   "@),
        (ArtTone::LimeGreen, "/"@),
        (ArtTone::ForestGreen, ".----."@),
        (ArtTone::PaleGreen, "`"@),
        (ArtTone::LimeGreen, "\\"@),
    ]
}

/// Row 2 of the dragon art.
pub open spec fn dragon_row_2() -> Seq<(ArtTone, Seq<char>)> {
    seq![
        (ArtTone::ForestGreen, "      "@),
        (ArtTone::LimeGreen, "}"@),
        (ArtTone::ForestGreen, " /      "@),
        (ArtTone::FlameOrange, ":"@),
        (ArtTone::LimeGreen, "}"@),
        (ArtTone::ForestGreen, " "@),
        (ArtTone::LimeGreen, "{"@),
        (ArtTone::FlameOrange, ":"@),
        (ArtTone::ForestGreen, "      \\ "@),
        (ArtTone::LimeGreen, "{"@),
    ]
}

/// Row 3 of the dragon art.
pub open spec fn dragon_row_3() -> Seq<(ArtTone, Seq<char>)> {
    seq![
        (ArtTone::ForestGreen, "     "@),
        (ArtTone::LimeGreen, "/ "@),
        (ArtTone::DarkForest, "{        "@),
        (ArtTone::LimeGreen, "}"@),
        (ArtTone::ForestGreen, " "@),
        (ArtTone::LimeGreen, "{"@),
        (ArtTone::DarkForest, "        } "@),
        (ArtTone::LimeGreen, "\\"@),
    ]
}

/// Row 4 of the dragon art.
pub open spec fn dragon_row_4() -> Seq<(ArtTone, Seq<char>)> {
    seq![
        (ArtTone::ForestGreen, "     "@),
        (ArtTone::LimeGreen, "}"@),
        (ArtTone::DarkForest, " }      "@),
        (ArtTone::FlameOrange, ") "@),
        (ArtTone::LimeGreen, "}"@),
        (ArtTone::ForestGreen, " "@),
        (ArtTone::LimeGreen, "{"@),
        (ArtTone::FlameOrange, " ("@),
        (ArtTone::DarkForest, "      { "@),
        (ArtTone::LimeGreen, "{"@),
    ]
}

/// Row 5 of the dragon art.
pub open spec fn dragon_row_5() -> Seq<(ArtTone, Seq<char>)> {
    seq![
        (ArtTone::ForestGreen, "    "@),
        (ArtTone::LimeGreen, "/ "@),
        (ArtTone::DarkForest, "{      "@),
        (ArtTone::LightStone, "/|\\"@),
        (ArtTone::LimeGreen, "}"@),
        (ArtTone::FlameOrange, "!"@),
        (ArtTone::LimeGreen, "{"@),
        (ArtTone::LightStone, "/|\\"@),
        (ArtTone::DarkForest, "      } "@),
        (ArtTone::LimeGreen, "\\"@),
    ]
}

/// Row 6 of the dragon art.
pub open spec fn dragon_row_6() -> Seq<(ArtTone, Seq<char>)> {
    seq![
        (ArtTone::ForestGreen, "    "@),
        (ArtTone::LimeGreen, "}"@),
        (ArtTone::DarkForest, " }     "@),
        (ArtTone::ForestGreen, "( ("@),
        (ArtTone::PaleGreen, ".\"^\"."@),
        (ArtTone::ForestGreen, ") )"@),
        (ArtTone::DarkForest, "     { "@),
        (ArtTone::LimeGreen, "{"@),
    ]
}

/// Row 7 of the dragon art.
pub open spec fn dragon_row_7() -> Seq<(ArtTone, Seq<char>)> {
    seq![
        (ArtTone::ForestGreen, "   "@),
        (ArtTone::LimeGreen, "/ "@),
        (ArtTone::DarkForest, "{       "@),
        (ArtTone::ForestGreen, "("@),
        (ArtTone::EmberRed, "d"@),
        (ArtTone::ForestGreen, "\\"@),
        (ArtTone::DarkForest, "   "@),
        (ArtTone::ForestGreen, "/"@),
        (ArtTone::EmberRed, "b"@),
        (ArtTone::ForestGreen, ")"@),
        (ArtTone::DarkForest, "       } "@),
        (ArtTone::LimeGreen, "\\"@),
    ]
}

/// Row 8 of the dragon art.
pub open spec fn dragon_row_8() -> Seq<(ArtTone, Seq<char>)> {
    seq![
        (ArtTone::ForestGreen, "   "@),
        (ArtTone::LimeGreen, "}"@),
        (ArtTone::DarkForest, " }       "@),
        (ArtTone::ForestGreen, "|\\"@),
        (ArtTone::FlameOrange, "~"@),
        (ArtTone::DarkForest, "   "@),
        (ArtTone::FlameOrange, "~"@),
        (ArtTone::ForestGreen, "/|"@),
        (ArtTone::DarkForest, "       { "@),
        (ArtTone::LimeGreen, "{"@),
    ]
}

/// Row 9 of the dragon art.
pub open spec fn dragon_row_9() -> Seq<(ArtTone, Seq<char>)> {
    seq![
        (ArtTone::ForestGreen, "  "@),
        (ArtTone::LimeGreen, "/ /"@),
        (ArtTone::DarkForest, "        "@),
        (ArtTone::ForestGreen, "| )"@),
        (ArtTone::DarkForest, "   "@),
        (ArtTone::ForestGreen, "( |"@),
        (ArtTone::DarkForest, "        "@),
        (ArtTone::LimeGreen, "\\ \\"@),
    ]
}

/// Row 10 of the dragon art.
pub open spec fn dragon_row_10() -> Seq<(ArtTone, Seq<char>)> {
    seq![
        (ArtTone::ForestGreen, " "@),
        (ArtTone::LimeGreen, "{ {"@),
        (ArtTone::DarkForest, "        "@),
        (ArtTone::ForestGreen, "_)("@),
        (ArtTone::FlameOrange, ",   ,"@),
        (ArtTone::ForestGreen, ")(_"@),
        (ArtTone::DarkForest, "        "@),
        (ArtTone::LimeGreen, "} }"@),
    ]
}

/// Row 11 of the dragon art.
pub open spec fn dragon_row_11() -> Seq<(ArtTone, Seq<char>)> {
    seq![
        (ArtTone::ForestGreen, "  "@),
        (ArtTone::LimeGreen, "}"@),
        (ArtTone::DarkForest, " }      "@),
        (ArtTone::ForestGreen, "//"@),
        (ArtTone::PaleGreen, "  `\";\"` "@),
        (ArtTone::ForestGreen, " \\\\"@),
        (ArtTone::DarkForest, "      { "@),
        (ArtTone::LimeGreen, "{"@),
    ]
}

/// Row 12 of the dragon art.
pub open spec fn dragon_row_12() -> Seq<(ArtTone, Seq<char>)> {
    seq![
        (ArtTone::ForestGreen, " "@),
        (ArtTone::LimeGreen, "/ /"@),
        (ArtTone::DarkForest, "      "@),
        (ArtTone::ForestGreen, "//"@),
        (ArtTone::DarkForest, "     (     "@),
        (ArtTone::ForestGreen, "\\\\"@),
        (ArtTone::DarkForest, "      "@),
        (ArtTone::LimeGreen, "\\ \\"@),
    ]
}

/// Row 13 of the dragon art.
pub open spec fn dragon_row_13() -> Seq<(ArtTone, Seq<char>)> {
    seq![
        (ArtTone::LimeGreen, "{ {"@),
        (ArtTone::DarkForest, "      "@),
        (ArtTone::ForestGreen, "{("@),
        (ArtTone::DarkForest, "     "@),
        (ArtTone::FlameOrange, "-=)"@),
        (ArtTone::DarkForest, "     "@),
        (ArtTone::ForestGreen, ")}"@),
        (ArtTone::DarkForest, "      "@),
        (ArtTone::LimeGreen, "} }"@),
    ]
}

/// Row 14 of the dragon art.
pub open spec fn dragon_row_14() -> Seq<(ArtTone, Seq<char>)> {
    seq![
        (ArtTone::ForestGreen, " "@),
        (ArtTone::LimeGreen, "\\ \\"@),
        (ArtTone::DarkForest, "     "@),
        (ArtTone::ForestGreen, "/)"@),
        (ArtTone::DarkForest, "    "@),
        (ArtTone::FlameOrange, "-=(=-"@),
        (ArtTone::DarkForest, "     "@),
        (ArtTone::ForestGreen, "(\\"@),
        (ArtTone::DarkForest, "    "@),
        (ArtTone::LimeGreen, "/ /"@),
    ]
}

/// Row 15 of the dragon art.
pub open spec fn dragon_row_15() -> Seq<(ArtTone, Seq<char>)> {
    seq![
        (ArtTone::ForestGreen, "  "@),
        (ArtTone::LimeGreen, "`\\\\"@),
        (ArtTone::DarkForest, "  "@),
        (ArtTone::ForestGreen, "/'/"@),
        (ArtTone::DarkForest, "    "@),
        (ArtTone::FlameOrange, "/-=|\\-\\"@),
        (ArtTone::DarkForest, "    "@),
        (ArtTone::ForestGreen, "\\`\\"@),
        (ArtTone::DarkForest, "  "@),
        (ArtTone::LimeGreen, "//'"@),
    ]
}

/// Row 16 of the dragon art.
pub open spec fn dragon_row_16() -> Seq<(ArtTone, Seq<char>)> {
    seq![
        (ArtTone::ForestGreen, "    "@),
        (ArtTone::LimeGreen, "`\\{"@),
        (ArtTone::DarkForest, "  |   "@),
        (ArtTone::ForestGreen, "( "@),
        (ArtTone::FlameOrange, "-===-"@),
        (ArtTone::ForestGreen, " )"@),
        (ArtTone::DarkForest, "   |  "@),
        (ArtTone::LimeGreen, "}/'"@),
    ]
}

/// Row 17 of the dragon art.
pub open spec fn dragon_row_17() -> Seq<(ArtTone, Seq<char>)> {
    seq![
        (ArtTone::ForestGreen, "      "@),
        (ArtTone::LimeGreen, "`"@),
        (ArtTone::DarkForest, "  _\\   "@),
        (ArtTone::ForestGreen, "\\"@),
        (ArtTone::FlameOrange, "-===-"@),
        (ArtTone::ForestGreen, "/"@),
        (ArtTone::DarkForest, "   /_  "@),
        (ArtTone::LimeGreen, "'"@),
    ]
}

/// Row 18 of the dragon art.
pub open spec fn dragon_row_18() -> Seq<(ArtTone, Seq<char>)> {
    seq![
        (ArtTone::ForestGreen, "        "@),
        (ArtTone::LightStone, "(_(_(_)"@),
        (ArtTone::PaleGreen, "'"@),
        (ArtTone::FlameOrange, "-=-"@),
        (ArtTone::PaleGreen, "'"@),
        (ArtTone::LightStone, "(_)_)_)"@),
    ]
}

/// The width of each row of the dragon art, in columns.
pub open spec fn dragon_row_width(row: int) -> nat {
    if row == 0 {
        (28) as nat
    } else if row == 1 {
        (28) as nat
    } else if row == 2 {
        (29) as nat
    } else if row == 3 {
        (30) as nat
    } else if row == 4 {
        (30) as nat
    } else if row == 5 {
        (31) as nat
    } else if row == 6 {
        (31) as nat
    } else if row == 7 {
        (32) as nat
    } else if row == 8 {
        (32) as nat
    } else if row == 9 {
        (33) as nat
    } else if row == 10 {
        (34) as nat
    } else if row == 11 {
        (33) as nat
    } else if row == 12 {
        (34) as nat
    } else if row == 13 {
        (35) as nat
    } else if row == 14 {
        (34) as nat
    } else if row == 15 {
        (33) as nat
    } else if row == 16 {
        (31) as nat
    } else if row == 17 {
        (29) as nat
    } else if row == 18 {
        (27) as nat
    } else {
        0
    }
}

/// The dragon, wings spread, nineteen rows tall.
pub open spec fn spec_dragon_art() -> Seq<Seq<(ArtTone, Seq<char>)>> {
    seq![
        dragon_row_0(),
        dragon_row_1(),
        dragon_row_2(),
        dragon_row_3(),
        dragon_row_4(),
        dragon_row_5(),
        dragon_row_6(),
        dragon_row_7(),
        dragon_row_8(),
        dragon_row_9(),
        dragon_row_10(),
        dragon_row_11(),
        dragon_row_12(),
        dragon_row_13(),
        dragon_row_14(),
        dragon_row_15(),
        dragon_row_16(),
        dragon_row_17(),
        dragon_row_18(),
    ]
}

fn dragon_row_0_spans() -> (r: Vec<(ArtTone, String)>)
    ensures
        span_views(r@) == dragon_row_0(),
        row_width(span_views(r@)) == dragon_row_width(0),
{
    proof {
        reveal_strlit("     ");
        reveal_strlit("       ");
        reveal_strlit("(______");
        reveal_strlit(")");
        reveal_strlit("/");
        reveal_strlit("\\");
        reveal_strlit("______");
    }
    let mut r: Vec<(ArtTone, String)> = Vec::new();
    push_span(&mut r, lit(ArtTone::ForestGreen, "       "));
    push_span(&mut r, lit(ArtTone::LimeGreen, "\\"));
    push_span(&mut r, lit(ArtTone::ForestGreen, "(______"));
    push_span(&mut r, lit(ArtTone::ForestGreen, "     "));
    push_span(&mut r, lit(ArtTone::ForestGreen, "______"));
    push_span(&mut r, lit(ArtTone::LimeGreen, ")"));
    push_span(&mut r, lit(ArtTone::LimeGreen, "/"));
    assert(span_views(r@) =~= seq![
        (ArtTone::ForestGreen, "       "@),
        (ArtTone::LimeGreen, "\\"@),
        (ArtTone::ForestGreen, "(______"@),
        (ArtTone::ForestGreen, "     "@),
        (ArtTone::ForestGreen, "______"@),
        (ArtTone::LimeGreen, ")"@),
        (ArtTone::LimeGreen, "/"@),
    ]);
    r
}

fn dragon_row_1_spans() -> (r: Vec<(ArtTone, String)>)
    ensures
        span_views(r@) == dragon_row_1(),
        row_width(span_views(r@)) == dragon_row_width(1),
{
    proof {
        reveal_strlit("   ");
        reveal_strlit("       /");
        reveal_strlit(".----.");
        reveal_strlit("/");
        reveal_strlit("\\");
        reveal_strlit("`");
    }
    let mut r: Vec<(ArtTone, String)> = Vec::new();
    push_span(&mut r, lit(ArtTone::LimeGreen, "       /"));
    push_span(&mut r, lit(ArtTone::PaleGreen, "`"));
    push_span(&mut r, lit(ArtTone::ForestGreen, ".----."));
    push_span(&mut r, lit(ArtTone::LimeGreen, "\\"));
    push_span(&mut r, lit(ArtTone::ForestGreen, "   "));
    push_span(&mut r, lit(ArtTone::LimeGreen, "/"));
    push_span(&mut r, lit(ArtTone::ForestGreen, ".----."));
    push_span(&mut r, lit(ArtTone::PaleGreen, "`"));
    push_span(&mut r, lit(ArtTone::LimeGreen, "\\"));
    assert(span_views(r@) =~= seq![
        (ArtTone::LimeGreen, "       /"@),
        (ArtTone::PaleGreen, "`"@),
        (ArtTone::ForestGreen, ".----."@),
        (ArtTone::LimeGreen, "\\"@),
        (ArtTone::ForestGreen, "   "@),
        (ArtTone::LimeGreen, "/"@),
        (ArtTone::ForestGreen, ".----."@),
        (ArtTone::PaleGreen, "`"@),
        (ArtTone::LimeGreen, "\\"@),
    ]);
    r
}

fn dragon_row_2_spans() -> (r: Vec<(ArtTone, String)>)
    ensures
        span_views(r@) == dragon_row_2(),
        row_width(span_views(r@)) == dragon_row_width(2),
{
    proof {
        reveal_strlit(" ");
        reveal_strlit("      ");
        reveal_strlit("      \\ ");
        reveal_strlit(" /      ");
        reveal_strlit(":");
        reveal_strlit("{");
        reveal_strlit("}");
    }
    let mut r: Vec<(ArtTone, String)> = Vec::new();
    push_span(&mut r, lit(ArtTone::ForestGreen, "      "));
    push_span(&mut r, lit(ArtTone::LimeGreen, "}"));
    push_span(&mut r, lit(ArtTone::ForestGreen, " /      "));
    push_span(&mut r, lit(ArtTone::FlameOrange, ":"));
    push_span(&mut r, lit(ArtTone::LimeGreen, "}"));
    push_span(&mut r, lit(ArtTone::ForestGreen, " "));
    push_span(&mut r, lit(ArtTone::LimeGreen, "{"));
    push_span(&mut r, lit(ArtTone::FlameOrange, ":"));
    push_span(&mut r, lit(ArtTone::ForestGreen, "      \\ "));
    push_span(&mut r, lit(ArtTone::LimeGreen, "{"));
    assert(span_views(r@) =~= seq![
        (ArtTone::ForestGreen, "      "@),
        (ArtTone::LimeGreen, "}"@),
        (ArtTone::ForestGreen, " /      "@),
        (ArtTone::FlameOrange, ":"@),
        (ArtTone::LimeGreen, "}"@),
        (ArtTone::ForestGreen, " "@),
        (ArtTone::LimeGreen, "{"@),
        (ArtTone::FlameOrange, ":"@),
        (ArtTone::ForestGreen, "      \\ "@),
        (ArtTone::LimeGreen, "{"@),
    ]);
    r
}

fn dragon_row_3_spans() -> (r: Vec<(ArtTone, String)>)
    ensures
        span_views(r@) == dragon_row_3(),
        row_width(span_views(r@)) == dragon_row_width(3),
{
    proof {
        reveal_strlit(" ");
        reveal_strlit("     ");
        reveal_strlit("        } ");
        reveal_strlit("/ ");
        reveal_strlit("\\");
        reveal_strlit("{");
        reveal_strlit("{        ");
        reveal_strlit("}");
    }
    let mut r: Vec<(ArtTone, String)> = Vec::new();
    push_span(&mut r, lit(ArtTone::ForestGreen, "     "));
    push_span(&mut r, lit(ArtTone::LimeGreen, "/ "));
    push_span(&mut r, lit(ArtTone::DarkForest, "{        "));
    push_span(&mut r, lit(ArtTone::LimeGreen, "}"));
    push_span(&mut r, lit(ArtTone::ForestGreen, " "));
    push_span(&mut r, lit(ArtTone::LimeGreen, "{"));
    push_span(&mut r, lit(ArtTone::DarkForest, "        } "));
    push_span(&mut r, lit(ArtTone::LimeGreen, "\\"));
    assert(span_views(r@) =~= seq![
        (ArtTone::ForestGreen, "     "@),
        (ArtTone::LimeGreen, "/ "@),
        (ArtTone::DarkForest, "{        "@),
        (ArtTone::LimeGreen, "}"@),
        (ArtTone::ForestGreen, " "@),
        (ArtTone::LimeGreen, "{"@),
        (ArtTone::DarkForest, "        } "@),
        (ArtTone::LimeGreen, "\\"@),
    ]);
    r
}

fn dragon_row_4_spans() -> (r: Vec<(ArtTone, String)>)
    ensures
        span_views(r@) == dragon_row_4(),
        row_width(span_views(r@)) == dragon_row_width(4),
{
    proof {
        reveal_strlit(" ");
        reveal_strlit("     ");
        reveal_strlit("      { ");
        reveal_strlit(" (");
        reveal_strlit(" }      ");
        reveal_strlit(") ");
        reveal_strlit("{");
        reveal_strlit("}");
    }
    let mut r: Vec<(ArtTone, String)> = Vec::new();
    push_span(&mut r, lit(ArtTone::ForestGreen, "     "));
    push_span(&mut r, lit(ArtTone::LimeGreen, "}"));
    push_span(&mut r, lit(ArtTone::DarkForest, " }      "));
    push_span(&mut r, lit(ArtTone::FlameOrange, ") "));
    push_span(&mut r, lit(ArtTone::LimeGreen, "}"));
    push_span(&mut r, lit(ArtTone::ForestGreen, " "));
    push_span(&mut r, lit(ArtTone::LimeGreen, "{"));
    push_span(&mut r, lit(ArtTone::FlameOrange, " ("));
    push_span(&mut r, lit(ArtTone::DarkForest, "      { "));
    push_span(&mut r, lit(ArtTone::LimeGreen, "{"));
    assert(span_views(r@) =~= seq![
        (ArtTone::ForestGreen, "     "@),
        (ArtTone::LimeGreen, "}"@),
        (ArtTone::DarkForest, " }      "@),
        (ArtTone::FlameOrange, ") "@),
        (ArtTone::LimeGreen, "}"@),
        (ArtTone::ForestGreen, " "@),
        (ArtTone::LimeGreen, "{"@),
        (ArtTone::FlameOrange, " ("@),
        (ArtTone::DarkForest, "      { "@),
        (ArtTone::LimeGreen, "{"@),
    ]);
    r
}

fn dragon_row_5_spans() -> (r: Vec<(ArtTone, String)>)
    ensures
        span_views(r@) == dragon_row_5(),
        row_width(span_views(r@)) == dragon_row_width(5),
{
    proof {
        reveal_strlit("    ");
        reveal_strlit("      } ");
        reveal_strlit("!");
        reveal_strlit("/ ");
        reveal_strlit("/|\\");
        reveal_strlit("\\");
        reveal_strlit("{");
        reveal_strlit("{      ");
        reveal_strlit("}");
    }
    let mut r: Vec<(ArtTone, String)> = Vec::new();
    push_span(&mut r, lit(ArtTone::ForestGreen, "    "));
    push_span(&mut r, lit(ArtTone::LimeGreen, "/ "));
    push_span(&mut r, lit(ArtTone::DarkForest, "{      "));
    push_span(&mut r, lit(ArtTone::LightStone, "/|\\"));
    push_span(&mut r, lit(ArtTone::LimeGreen, "}"));
    push_span(&mut r, lit(ArtTone::FlameOrange, "!"));
    push_span(&mut r, lit(ArtTone::LimeGreen, "{"));
    push_span(&mut r, lit(ArtTone::LightStone, "/|\\"));
    push_span(&mut r, lit(ArtTone::DarkForest, "      } "));
    push_span(&mut r, lit(ArtTone::LimeGreen, "\\"));
    assert(span_views(r@) =~= seq![
        (ArtTone::ForestGreen, "    "@),
        (ArtTone::LimeGreen, "/ "@),
        (ArtTone::DarkForest, "{      "@),
        (ArtTone::LightStone, "/|\\"@),
        (ArtTone::LimeGreen, "}"@),
        (ArtTone::FlameOrange, "!"@),
        (ArtTone::LimeGreen, "{"@),
        (ArtTone::LightStone, "/|\\"@),
        (ArtTone::DarkForest, "      } "@),
        (ArtTone::LimeGreen, "\\"@),
    ]);
    r
}

fn dragon_row_6_spans() -> (r: Vec<(ArtTone, String)>)
    ensures
        span_views(r@) == dragon_row_6(),
        row_width(span_views(r@)) == dragon_row_width(6),
{
    proof {
        reveal_strlit("    ");
        reveal_strlit("     { ");
        reveal_strlit(" }     ");
        reveal_strlit("( (");
        reveal_strlit(") )");
        reveal_strlit(".\"^\".");
        reveal_strlit("{");
        reveal_strlit("}");
    }
    let mut r: Vec<(ArtTone, String)> = Vec::new();
    push_span(&mut r, lit(ArtTone::ForestGreen, "    "));
    push_span(&mut r, lit(ArtTone::LimeGreen, "}"));
    push_span(&mut r, lit(ArtTone::DarkForest, " }     "));
    push_span(&mut r, lit(ArtTone::ForestGreen, "( ("));
    push_span(&mut r, lit(ArtTone::PaleGreen, ".\"^\"."));
    push_span(&mut r, lit(ArtTone::ForestGreen, ") )"));
    push_span(&mut r, lit(ArtTone::DarkForest, "     { "));
    push_span(&mut r, lit(ArtTone::LimeGreen, "{"));
    assert(span_views(r@) =~= seq![
        (ArtTone::ForestGreen, "    "@),
        (ArtTone::LimeGreen, "}"@),
        (ArtTone::DarkForest, " }     "@),
        (ArtTone::ForestGreen, "( ("@),
        (ArtTone::PaleGreen, ".\"^\"."@),
        (ArtTone::ForestGreen, ") )"@),
        (ArtTone::DarkForest, "     { "@),
        (ArtTone::LimeGreen, "{"@),
    ]);
    r
}

fn dragon_row_7_spans() -> (r: Vec<(ArtTone, String)>)
    ensures
        span_views(r@) == dragon_row_7(),
        row_width(span_views(r@)) == dragon_row_width(7),
{
    proof {
        reveal_strlit("   ");
        reveal_strlit("       } ");
        reveal_strlit("(");
        reveal_strlit(")");
        reveal_strlit("/");
        reveal_strlit("/ ");
        reveal_strlit("\\");
        reveal_strlit("b");
        reveal_strlit("d");
        reveal_strlit("{       ");
    }
    let mut r: Vec<(ArtTone, String)> = Vec::new();
    push_span(&mut r, lit(ArtTone::ForestGreen, "   "));
    push_span(&mut r, lit(ArtTone::LimeGreen, "/ "));
    push_span(&mut r, lit(ArtTone::DarkForest, "{       "));
    push_span(&mut r, lit(ArtTone::ForestGreen, "("));
    push_span(&mut r, lit(ArtTone::EmberRed, "d"));
    push_span(&mut r, lit(ArtTone::ForestGreen, "\\"));
    push_span(&mut r, lit(ArtTone::DarkForest, "   "));
    push_span(&mut r, lit(ArtTone::ForestGreen, "/"));
    push_span(&mut r, lit(ArtTone::EmberRed, "b"));
    push_span(&mut r, lit(ArtTone::ForestGreen, ")"));
    push_span(&mut r, lit(ArtTone::DarkForest, "       } "));
    push_span(&mut r, lit(ArtTone::LimeGreen, "\\"));
    assert(span_views(r@) =~= seq![
        (ArtTone::ForestGreen, "   "@),
        (ArtTone::LimeGreen, "/ "@),
        (ArtTone::DarkForest, "{       "@),
        (ArtTone::ForestGreen, "("@),
        (ArtTone::EmberRed, "d"@),
        (ArtTone::ForestGreen, "\\"@),
        (ArtTone::DarkForest, "   "@),
        (ArtTone::ForestGreen, "/"@),
        (ArtTone::EmberRed, "b"@),
        (ArtTone::ForestGreen, ")"@),
        (ArtTone::DarkForest, "       } "@),
        (ArtTone::LimeGreen, "\\"@),
    ]);
    r
}

fn dragon_row_8_spans() -> (r: Vec<(ArtTone, String)>)
    ensures
        span_views(r@) == dragon_row_8(),
        row_width(span_views(r@)) == dragon_row_width(8),
{
    proof {
        reveal_strlit("   ");
        reveal_strlit("       { ");
        reveal_strlit(" }       ");
        reveal_strlit("/|");
        reveal_strlit("{");
        reveal_strlit("|\\");
        reveal_strlit("}");
        reveal_strlit("~");
    }
    let mut r: Vec<(ArtTone, String)> = Vec::new();
    push_span(&mut r, lit(ArtTone::ForestGreen, "   "));
    push_span(&mut r, lit(ArtTone::LimeGreen, "}"));
    push_span(&mut r, lit(ArtTone::DarkForest, " }       "));
    push_span(&mut r, lit(ArtTone::ForestGreen, "|\\"));
    push_span(&mut r, lit(ArtTone::FlameOrange, "~"));
    push_span(&mut r, lit(ArtTone::DarkForest, "   "));
    push_span(&mut r, lit(ArtTone::FlameOrange, "~"));
    push_span(&mut r, lit(ArtTone::ForestGreen, "/|"));
    push_span(&mut r, lit(ArtTone::DarkForest, "       { "));
    push_span(&mut r, lit(ArtTone::LimeGreen, "{"));
    assert(span_views(r@) =~= seq![
        (ArtTone::ForestGreen, "   "@),
        (ArtTone::LimeGreen, "}"@),
        (ArtTone::DarkForest, " }       "@),
        (ArtTone::ForestGreen, "|\\"@),
        (ArtTone::FlameOrange, "~"@),
        (ArtTone::DarkForest, "   "@),
        (ArtTone::FlameOrange, "~"@),
        (ArtTone::ForestGreen, "/|"@),
        (ArtTone::DarkForest, "       { "@),
        (ArtTone::LimeGreen, "{"@),
    ]);
    r
}

fn dragon_row_9_spans() -> (r: Vec<(ArtTone, String)>)
    ensures
        span_views(r@) == dragon_row_9(),
        row_width(span_views(r@)) == dragon_row_width(9),
{
    proof {
        reveal_strlit("  ");
        reveal_strlit("   ");
        reveal_strlit("        ");
        reveal_strlit("( |");
        reveal_strlit("/ /");
        reveal_strlit("\\ \\");
        reveal_strlit("| )");
    }
    let mut r: Vec<(ArtTone, String)> = Vec::new();
    push_span(&mut r, lit(ArtTone::ForestGreen, "  "));
    push_span(&mut r, lit(ArtTone::LimeGreen, "/ /"));
    push_span(&mut r, lit(ArtTone::DarkForest, "        "));
    push_span(&mut r, lit(ArtTone::ForestGreen, "| )"));
    push_span(&mut r, lit(ArtTone::DarkForest, "   "));
    push_span(&mut r, lit(ArtTone::ForestGreen, "( |"));
    push_span(&mut r, lit(ArtTone::DarkForest, "        "));
    push_span(&mut r, lit(ArtTone::LimeGreen, "\\ \\"));
    assert(span_views(r@) =~= seq![
        (ArtTone::ForestGreen, "  "@),
        (ArtTone::LimeGreen, "/ /"@),
        (ArtTone::DarkForest, "        "@),
        (ArtTone::ForestGreen, "| )"@),
        (ArtTone::DarkForest, "   "@),
        (ArtTone::ForestGreen, "( |"@),
        (ArtTone::DarkForest, "        "@),
        (ArtTone::LimeGreen, "\\ \\"@),
    ]);
    r
}

fn dragon_row_10_spans() -> (r: Vec<(ArtTone, String)>)
    ensures
        span_views(r@) == dragon_row_10(),
        row_width(span_views(r@)) == dragon_row_width(10),
{
    proof {
        reveal_strlit(" ");
        reveal_strlit("        ");
        reveal_strlit(")(_");
        reveal_strlit(",   ,");
        reveal_strlit("_)(");
        reveal_strlit("{ {");
        reveal_strlit("} }");
    }
    let mut r: Vec<(ArtTone, String)> = Vec::new();
    push_span(&mut r, lit(ArtTone::ForestGreen, " "));
    push_span(&mut r, lit(ArtTone::LimeGreen, "{ {"));
    push_span(&mut r, lit(ArtTone::DarkForest, "        "));
    push_span(&mut r, lit(ArtTone::ForestGreen, "_)("));
    push_span(&mut r, lit(ArtTone::FlameOrange, ",   ,"));
    push_span(&mut r, lit(ArtTone::ForestGreen, ")(_"));
    push_span(&mut r, lit(ArtTone::DarkForest, "        "));
    push_span(&mut r, lit(ArtTone::LimeGreen, "} }"));
    assert(span_views(r@) =~= seq![
        (ArtTone::ForestGreen, " "@),
        (ArtTone::LimeGreen, "{ {"@),
        (ArtTone::DarkForest, "        "@),
        (ArtTone::ForestGreen, "_)("@),
        (ArtTone::FlameOrange, ",   ,"@),
        (ArtTone::ForestGreen, ")(_"@),
        (ArtTone::DarkForest, "        "@),
        (ArtTone::LimeGreen, "} }"@),
    ]);
    r
}

fn dragon_row_11_spans() -> (r: Vec<(ArtTone, String)>)
    ensures
        span_views(r@) == dragon_row_11(),
        row_width(span_views(r@)) == dragon_row_width(11),
{
    proof {
        reveal_strlit("  ");
        reveal_strlit("      { ");
        reveal_strlit("  `\";\"` ");
        reveal_strlit(" \\\\");
        reveal_strlit(" }      ");
        reveal_strlit("//");
        reveal_strlit("{");
        reveal_strlit("}");
    }
    let mut r: Vec<(ArtTone, String)> = Vec::new();
    push_span(&mut r, lit(ArtTone::ForestGreen, "  "));
    push_span(&mut r, lit(ArtTone::LimeGreen, "}"));
    push_span(&mut r, lit(ArtTone::DarkForest, " }      "));
    push_span(&mut r, lit(ArtTone::ForestGreen, "//"));
    push_span(&mut r, lit(ArtTone::PaleGreen, "  `\";\"` "));
    push_span(&mut r, lit(ArtTone::ForestGreen, " \\\\"));
    push_span(&mut r, lit(ArtTone::DarkForest, "      { "));
    push_span(&mut r, lit(ArtTone::LimeGreen, "{"));
    assert(span_views(r@) =~= seq![
        (ArtTone::ForestGreen, "  "@),
        (ArtTone::LimeGreen, "}"@),
        (ArtTone::DarkForest, " }      "@),
        (ArtTone::ForestGreen, "//"@),
        (ArtTone::PaleGreen, "  `\";\"` "@),
        (ArtTone::ForestGreen, " \\\\"@),
        (ArtTone::DarkForest, "      { "@),
        (ArtTone::LimeGreen, "{"@),
    ]);
    r
}

fn dragon_row_12_spans() -> (r: Vec<(ArtTone, String)>)
    ensures
        span_views(r@) == dragon_row_12(),
        row_width(span_views(r@)) == dragon_row_width(12),
{
    proof {
        reveal_strlit(" ");
        reveal_strlit("      ");
        reveal_strlit("     (     ");
        reveal_strlit("/ /");
        reveal_strlit("//");
        reveal_strlit("\\ \\");
        reveal_strlit("\\\\");
    }
    let mut r: Vec<(ArtTone, String)> = Vec::new();
    push_span(&mut r, lit(ArtTone::ForestGreen, " "));
    push_span(&mut r, lit(ArtTone::LimeGreen, "/ /"));
    push_span(&mut r, lit(ArtTone::DarkForest, "      "));
    push_span(&mut r, lit(ArtTone::ForestGreen, "//"));
    push_span(&mut r, lit(ArtTone::DarkForest, "     (     "));
    push_span(&mut r, lit(ArtTone::ForestGreen, "\\\\"));
    push_span(&mut r, lit(ArtTone::DarkForest, "      "));
    push_span(&mut r, lit(ArtTone::LimeGreen, "\\ \\"));
    assert(span_views(r@) =~= seq![
        (ArtTone::ForestGreen, " "@),
        (ArtTone::LimeGreen, "/ /"@),
        (ArtTone::DarkForest, "      "@),
        (ArtTone::ForestGreen, "//"@),
        (ArtTone::DarkForest, "     (     "@),
        (ArtTone::ForestGreen, "\\\\"@),
        (ArtTone::DarkForest, "      "@),
        (ArtTone::LimeGreen, "\\ \\"@),
    ]);
    r
}

fn dragon_row_13_spans() -> (r: Vec<(ArtTone, String)>)
    ensures
        span_views(r@) == dragon_row_13(),
        row_width(span_views(r@)) == dragon_row_width(13),
{
    proof {
        reveal_strlit("     ");
        reveal_strlit("      ");
        reveal_strlit(")}");
        reveal_strlit("-=)");
        reveal_strlit("{ {");
        reveal_strlit("{(");
        reveal_strlit("} }");
    }
    let mut r: Vec<(ArtTone, String)> = Vec::new();
    push_span(&mut r, lit(ArtTone::LimeGreen, "{ {"));
    push_span(&mut r, lit(ArtTone::DarkForest, "      "));
    push_span(&mut r, lit(ArtTone::ForestGreen, "{("));
    push_span(&mut r, lit(ArtTone::DarkForest, "     "));
    push_span(&mut r, lit(ArtTone::FlameOrange, "-=)"));
    push_span(&mut r, lit(ArtTone::DarkForest, "     "));
    push_span(&mut r, lit(ArtTone::ForestGreen, ")}"));
    push_span(&mut r, lit(ArtTone::DarkForest, "      "));
    push_span(&mut r, lit(ArtTone::LimeGreen, "} }"));
    assert(span_views(r@) =~= seq![
        (ArtTone::LimeGreen, "{ {"@),
        (ArtTone::DarkForest, "      "@),
        (ArtTone::ForestGreen, "{("@),
        (ArtTone::DarkForest, "     "@),
        (ArtTone::FlameOrange, "-=)"@),
        (ArtTone::DarkForest, "     "@),
        (ArtTone::ForestGreen, ")}"@),
        (ArtTone::DarkForest, "      "@),
        (ArtTone::LimeGreen, "} }"@),
    ]);
    r
}

fn dragon_row_14_spans() -> (r: Vec<(ArtTone, String)>)
    ensures
        span_views(r@) == dragon_row_14(),
        row_width(span_views(r@)) == dragon_row_width(14),
{
    proof {
        reveal_strlit(" ");
        reveal_strlit("    ");
        reveal_strlit("     ");
        reveal_strlit("(\\");
        reveal_strlit("-=(=-");
        reveal_strlit("/ /");
        reveal_strlit("/)");
        reveal_strlit("\\ \\");
    }
    let mut r: Vec<(ArtTone, String)> = Vec::new();
    push_span(&mut r, lit(ArtTone::ForestGreen, " "));
    push_span(&mut r, lit(ArtTone::LimeGreen, "\\ \\"));
    push_span(&mut r, lit(ArtTone::DarkForest, "     "));
    push_span(&mut r, lit(ArtTone::ForestGreen, "/)"));
    push_span(&mut r, lit(ArtTone::DarkForest, "    "));
    push_span(&mut r, lit(ArtTone::FlameOrange, "-=(=-"));
    push_span(&mut r, lit(ArtTone::DarkForest, "     "));
    push_span(&mut r, lit(ArtTone::ForestGreen, "(\\"));
    push_span(&mut r, lit(ArtTone::DarkForest, "    "));
    push_span(&mut r, lit(ArtTone::LimeGreen, "/ /"));
    assert(span_views(r@) =~= seq![
        (ArtTone::ForestGreen, " "@),
        (ArtTone::LimeGreen, "\\ \\"@),
        (ArtTone::DarkForest, "     "@),
        (ArtTone::ForestGreen, "/)"@),
        (ArtTone::DarkForest, "    "@),
        (ArtTone::FlameOrange, "-=(=-"@),
        (ArtTone::DarkForest, "     "@),
        (ArtTone::ForestGreen, "(\\"@),
        (ArtTone::DarkForest, "    "@),
        (ArtTone::LimeGreen, "/ /"@),
    ]);
    r
}

fn dragon_row_15_spans() -> (r: Vec<(ArtTone, String)>)
    ensures
        span_views(r@) == dragon_row_15(),
        row_width(span_views(r@)) == dragon_row_width(15),
{
    proof {
        reveal_strlit("  ");
        reveal_strlit("    ");
        reveal_strlit("/'/");
        reveal_strlit("/-=|\\-\\");
        reveal_strlit("//'");
        reveal_strlit("\\`\\");
        reveal_strlit("`\\\\");
    }
    let mut r: Vec<(ArtTone, String)> = Vec::new();
    push_span(&mut r, lit(ArtTone::ForestGreen, "  "));
    push_span(&mut r, lit(ArtTone::LimeGreen, "`\\\\"));
    push_span(&mut r, lit(ArtTone::DarkForest, "  "));
    push_span(&mut r, lit(ArtTone::ForestGreen, "/'/"));
    push_span(&mut r, lit(ArtTone::DarkForest, "    "));
    push_span(&mut r, lit(ArtTone::FlameOrange, "/-=|\\-\\"));
    push_span(&mut r, lit(ArtTone::DarkForest, "    "));
    push_span(&mut r, lit(ArtTone::ForestGreen, "\\`\\"));
    push_span(&mut r, lit(ArtTone::DarkForest, "  "));
    push_span(&mut r, lit(ArtTone::LimeGreen, "//'"));
    assert(span_views(r@) =~= seq![
        (ArtTone::ForestGreen, "  "@),
        (ArtTone::LimeGreen, "`\\\\"@),
        (ArtTone::DarkForest, "  "@),
        (ArtTone::ForestGreen, "/'/"@),
        (ArtTone::DarkForest, "    "@),
        (ArtTone::FlameOrange, "/-=|\\-\\"@),
        (ArtTone::DarkForest, "    "@),
        (ArtTone::ForestGreen, "\\`\\"@),
        (ArtTone::DarkForest, "  "@),
        (ArtTone::LimeGreen, "//'"@),
    ]);
    r
}

fn dragon_row_16_spans() -> (r: Vec<(ArtTone, String)>)
    ensures
        span_views(r@) == dragon_row_16(),
        row_width(span_views(r@)) == dragon_row_width(16),
{
    proof {
        reveal_strlit("    ");
        reveal_strlit("   |  ");
        reveal_strlit("  |   ");
        reveal_strlit(" )");
        reveal_strlit("( ");
        reveal_strlit("-===-");
        reveal_strlit("`\\{");
        reveal_strlit("}/'");
    }
    let mut r: Vec<(ArtTone, String)> = Vec::new();
    push_span(&mut r, lit(ArtTone::ForestGreen, "    "));
    push_span(&mut r, lit(ArtTone::LimeGreen, "`\\{"));
    push_span(&mut r, lit(ArtTone::DarkForest, "  |   "));
    push_span(&mut r, lit(ArtTone::ForestGreen, "( "));
    push_span(&mut r, lit(ArtTone::FlameOrange, "-===-"));
    push_span(&mut r, lit(ArtTone::ForestGreen, " )"));
    push_span(&mut r, lit(ArtTone::DarkForest, "   |  "));
    push_span(&mut r, lit(ArtTone::LimeGreen, "}/'"));
    assert(span_views(r@) =~= seq![
        (ArtTone::ForestGreen, "    "@),
        (ArtTone::LimeGreen, "`\\{"@),
        (ArtTone::DarkForest, "  |   "@),
        (ArtTone::ForestGreen, "( "@),
        (ArtTone::FlameOrange, "-===-"@),
        (ArtTone::ForestGreen, " )"@),
        (ArtTone::DarkForest, "   |  "@),
        (ArtTone::LimeGreen, "}/'"@),
    ]);
    r
}

fn dragon_row_17_spans() -> (r: Vec<(ArtTone, String)>)
    ensures
        span_views(r@) == dragon_row_17(),
        row_width(span_views(r@)) == dragon_row_width(17),
{
    proof {
        reveal_strlit("      ");
        reveal_strlit("   /_  ");
        reveal_strlit("  _\\   ");
        reveal_strlit("'");
        reveal_strlit("-===-");
        reveal_strlit("/");
        reveal_strlit("\\");
        reveal_strlit("`");
    }
    let mut r: Vec<(ArtTone, String)> = Vec::new();
    push_span(&mut r, lit(ArtTone::ForestGreen, "      "));
    push_span(&mut r, lit(ArtTone::LimeGreen, "`"));
    push_span(&mut r, lit(ArtTone::DarkForest, "  _\\   "));
    push_span(&mut r, lit(ArtTone::ForestGreen, "\\"));
    push_span(&mut r, lit(ArtTone::FlameOrange, "-===-"));
    push_span(&mut r, lit(ArtTone::ForestGreen, "/"));
    push_span(&mut r, lit(ArtTone::DarkForest, "   /_  "));
    push_span(&mut r, lit(ArtTone::LimeGreen, "'"));
    assert(span_views(r@) =~= seq![
        (ArtTone::ForestGreen, "      "@),
        (ArtTone::LimeGreen, "`"@),
        (ArtTone::DarkForest, "  _\\   "@),
        (ArtTone::ForestGreen, "\\"@),
        (ArtTone::FlameOrange, "-===-"@),
        (ArtTone::ForestGreen, "/"@),
        (ArtTone::DarkForest, "   /_  "@),
        (ArtTone::LimeGreen, "'"@),
    ]);
    r
}

fn dragon_row_18_spans() -> (r: Vec<(ArtTone, String)>)
    ensures
        span_views(r@) == dragon_row_18(),
        row_width(span_views(r@)) == dragon_row_width(18),
{
    proof {
        reveal_strlit("        ");
        reveal_strlit("'");
        reveal_strlit("(_(_(_)");
        reveal_strlit("(_)_)_)");
        reveal_strlit("-=-");
    }
    let mut r: Vec<(ArtTone, String)> = Vec::new();
    push_span(&mut r, lit(ArtTone::ForestGreen, "        "));
    push_span(&mut r, lit(ArtTone::LightStone, "(_(_(_)"));
    push_span(&mut r, lit(ArtTone::PaleGreen, "'"));
    push_span(&mut r, lit(ArtTone::FlameOrange, "-=-"));
    push_span(&mut r, lit(ArtTone::PaleGreen, "'"));
    push_span(&mut r, lit(ArtTone::LightStone, "(_)_)_)"));
    assert(span_views(r@) =~= seq![
        (ArtTone::ForestGreen, "        "@),
        (ArtTone::LightStone, "(_(_(_)"@),
        (ArtTone::PaleGreen, "'"@),
        (ArtTone::FlameOrange, "-=-"@),
        (ArtTone::PaleGreen, "'"@),
        (ArtTone::LightStone, "(_)_)_)"@),
    ]);
    r
}

/// The dragon: nineteen rows, none wider than 41 columns.
pub fn dragon_art() -> (rows: Vec<Vec<(ArtTone, String)>>)
    ensures
        art_views(rows@) == spec_dragon_art(),
        rows@.len() == 19,
        forall|i: int| 0 <= i < rows@.len() ==> #[trigger] row_width(art_views(rows@)[i]) <= 41,
        forall|i: int| 0 <= i < rows@.len() ==> #[trigger] row_width(art_views(rows@)[i]) == dragon_row_width(i),
{
    let mut rows: Vec<Vec<(ArtTone, String)>> = Vec::new();
    rows.push(dragon_row_0_spans());
    rows.push(dragon_row_1_spans());
    rows.push(dragon_row_2_spans());
    rows.push(dragon_row_3_spans());
    rows.push(dragon_row_4_spans());
    rows.push(dragon_row_5_spans());
    rows.push(dragon_row_6_spans());
    rows.push(dragon_row_7_spans());
    rows.push(dragon_row_8_spans());
    rows.push(dragon_row_9_spans());
    rows.push(dragon_row_10_spans());
    rows.push(dragon_row_11_spans());
    rows.push(dragon_row_12_spans());
    rows.push(dragon_row_13_spans());
    rows.push(dragon_row_14_spans());
    rows.push(dragon_row_15_spans());
    rows.push(dragon_row_16_spans());
    rows.push(dragon_row_17_spans());
    rows.push(dragon_row_18_spans());
    assert(art_views(rows@) =~= spec_dragon_art());
    rows
}

} // verus!
