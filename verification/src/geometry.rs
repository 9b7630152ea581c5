//! The mode table: a pure lookup from a symbol mode to the glyph's bounding
//! box in character cells and to the ordered text rows that render it.

use vstd::prelude::*;

verus! {

/// The closed set of glyphs the animation can display. Switching between
/// variants is the only mutation; there is no dynamic registration.
#[derive(Debug, Clone, Copy, PartialEq, Eq, Structural)]
pub enum SymbolMode {
    SnowflakeSmall,
    SnowflakeLarge,
    NixOS,
    Arch,
    MiddleFinger,
}

/// Width, in character cells, of the glyph's bounding box.
pub open spec fn spec_width(mode: SymbolMode) -> int {
    match mode {
        SymbolMode::SnowflakeSmall => 1,
        SymbolMode::SnowflakeLarge => 5,
        SymbolMode::NixOS => 46,
        SymbolMode::Arch => 46,
        SymbolMode::MiddleFinger => 2,
    }
}

/// Height, in character cells, of the glyph's bounding box.
pub open spec fn spec_height(mode: SymbolMode) -> int {
    match mode {
        SymbolMode::SnowflakeSmall => 1,
        SymbolMode::SnowflakeLarge => 3,
        SymbolMode::NixOS => 19,
        SymbolMode::Arch => 19,
        SymbolMode::MiddleFinger => 1,
    }
}

/// The ordered text rows of the glyph, each as a sequence of characters.
///
/// The bounding-box width of a row is its rendered width in terminal
/// columns, which for wide glyphs is not the number of characters; only
/// the row count is tied to the bounding box (see
/// [`lemma_rows_match_height`]).
pub open spec fn spec_rows(mode: SymbolMode) -> Seq<Seq<char>> {
    match mode {
        SymbolMode::SnowflakeSmall => seq!["❄"@],
        SymbolMode::SnowflakeLarge => seq!["  ❄  "@, " ❄❄❄ "@, "  ❄  "@],
        SymbolMode::NixOS => seq![
            "          ::::.    ':::::     ::::'          "@,
            "          ':::::    ':::::.  ::::'           "@,
            "            :::::     '::::.:::::            "@,
            "      .......:::::..... ::::::::             "@,
            "     ::::::::::::::::::. ::::::    ::::.     "@,
            "    ::::::::::::::::::::: :::::.  .::::'     "@,
            "           .....           ::::' :::::'      "@,
            "          :::::            '::' :::::'       "@,
            " ........:::::               ' :::::::::::.  "@,
            ":::::::::::::                 :::::::::::::  "@,
            " ::::::::::: ..              :::::           "@,
            "     .::::: .:::            :::::            "@,
            "    .:::::  :::::          '''''    .....    "@,
            "    :::::   ':::::.  ......:::::::::::::'    "@,
            "     :::     ::::::. ':::::::::::::::::'     "@,
            "            .:::::::: '::::::::::            "@,
            "           .::::''::::.     '::::.           "@,
            "          .::::'   ::::.     '::::.          "@,
            "         .::::      ::::      '::::.         "@,
        ],
        SymbolMode::Arch => seq![
            "                      ▄                       "@,
            "                     ▟█▙                      "@,
            "                    ▟███▙                     "@,
            "                   ▟█████▙                    "@,
            "                  ▟███████▙                   "@,
            "                 ▂▔▀▜██████▙                  "@,
            "                ▟██▅▂▝▜█████▙                 "@,
            "               ▟█████████████▙                "@,
            "              ▟███████████████▙               "@,
            "             ▟█████████████████▙              "@,
            "            ▟███████████████████▙             "@,
            "           ▟█████████▛▀▀▜████████▙            "@,
            "          ▟████████▛      ▜███████▙           "@,
            "         ▟█████████        ████████▙          "@,
            "        ▟██████████        █████▆▅▄▃▂         "@,
            "       ▟██████████▛        ▜█████████▙        "@,
            "      ▟██████▀▀▀              ▀▀██████▙       "@,
            "     ▟███▀▘                       ▝▀███▙      "@,
            "    ▟▛▀                               ▀▜▙     "@,
        ],
        SymbolMode::MiddleFinger => seq!["🖕"@],
    }
}

/// Law: for every mode, the number of glyph rows equals the height
/// component of its bounding box.
pub proof fn lemma_rows_match_height(mode: SymbolMode)
    ensures
        spec_rows(mode).len() == spec_height(mode),
{
}

/// Bounding box `(width, height)` of the glyph for `mode`, in character
/// cells. Pure and total: the mode set is closed and exhaustively covered.
pub fn dimensions(mode: SymbolMode) -> (d: (u16, u16))
    ensures
        d.0 as int == spec_width(mode),
        d.1 as int == spec_height(mode),
{
    match mode {
        SymbolMode::SnowflakeSmall => (1, 1),
        SymbolMode::SnowflakeLarge => (5, 3),
        SymbolMode::NixOS => (46, 19),
        SymbolMode::Arch => (46, 19),
        SymbolMode::MiddleFinger => (2, 1),
    }
}

/// The `i`-th text row of the glyph for `mode`.
pub fn row(mode: SymbolMode, i: u16) -> (r: &'static str)
    requires
        (i as int) < spec_height(mode),
    ensures
        r@ == spec_rows(mode)[i as int],
{
    match mode {
        SymbolMode::SnowflakeSmall => "❄",
        SymbolMode::SnowflakeLarge => {
            if i == 0 {
                "  ❄  "
            } else if i == 1 {
                " ❄❄❄ "
            } else {
                "  ❄  "
            }
        },
        SymbolMode::NixOS => {
            if i == 0 {
                "          ::::.    ':::::     ::::'          "
            } else if i == 1 {
                "          ':::::    ':::::.  ::::'           "
            } else if i == 2 {
                "            :::::     '::::.:::::            "
            } else if i == 3 {
                "      .......:::::..... ::::::::             "
            } else if i == 4 {
                "     ::::::::::::::::::. ::::::    ::::.     "
            } else if i == 5 {
                "    ::::::::::::::::::::: :::::.  .::::'     "
            } else if i == 6 {
                "           .....           ::::' :::::'      "
            } else if i == 7 {
                "          :::::            '::' :::::'       "
            } else if i == 8 {
                " ........:::::               ' :::::::::::.  "
            } else if i == 9 {
                ":::::::::::::                 :::::::::::::  "
            } else if i == 10 {
                " ::::::::::: ..              :::::           "
            } else if i == 11 {
                "     .::::: .:::            :::::            "
            } else if i == 12 {
                "    .:::::  :::::          '''''    .....    "
            } else if i == 13 {
                "    :::::   ':::::.  ......:::::::::::::'    "
            } else if i == 14 {
                "     :::     ::::::. ':::::::::::::::::'     "
            } else if i == 15 {
                "            .:::::::: '::::::::::            "
            } else if i == 16 {
                "           .::::''::::.     '::::.           "
            } else if i == 17 {
                "          .::::'   ::::.     '::::.          "
            } else {
                "         .::::      ::::      '::::.         "
            }
        },
        SymbolMode::Arch => {
            if i == 0 {
                "                      ▄                       "
            } else if i == 1 {
                "                     ▟█▙                      "
            } else if i == 2 {
                "                    ▟███▙                     "
            } else if i == 3 {
                "                   ▟█████▙                    "
            } else if i == 4 {
                "                  ▟███████▙                   "
            } else if i == 5 {
                "                 ▂▔▀▜██████▙                  "
            } else if i == 6 {
                "                ▟██▅▂▝▜█████▙                 "
            } else if i == 7 {
                "               ▟█████████████▙                "
            } else if i == 8 {
                "              ▟███████████████▙               "
            } else if i == 9 {
                "             ▟█████████████████▙              "
            } else if i == 10 {
                "            ▟███████████████████▙             "
            } else if i == 11 {
                "           ▟█████████▛▀▀▜████████▙            "
            } else if i == 12 {
                "          ▟████████▛      ▜███████▙           "
            } else if i == 13 {
                "         ▟█████████        ████████▙          "
            } else if i == 14 {
                "        ▟██████████        █████▆▅▄▃▂         "
            } else if i == 15 {
                "       ▟██████████▛        ▜█████████▙        "
            } else if i == 16 {
                "      ▟██████▀▀▀              ▀▀██████▙       "
            } else if i == 17 {
                "     ▟███▀▘                       ▝▀███▙      "
            } else {
                "    ▟▛▀                               ▀▜▙     "
            }
        },
        SymbolMode::MiddleFinger => "🖕",
    }
}

/// All text rows of the glyph for `mode`, in order.
pub fn rows(mode: SymbolMode) -> (r: Vec<&'static str>)
    ensures
        r@.len() == spec_rows(mode).len(),
        forall|j: int| 0 <= j < r@.len() ==> (#[trigger] r@[j])@ == spec_rows(mode)[j],
{
    let (_w, h) = dimensions(mode);
    proof {
        lemma_rows_match_height(mode);
    }
    let mut v: Vec<&'static str> = Vec::new();
    let mut i: u16 = 0;
    while i < h
        invariant
            i <= h,
            h as int == spec_height(mode),
            spec_rows(mode).len() == spec_height(mode),
            v@.len() == i as int,
            forall|j: int| 0 <= j < i as int ==> (#[trigger] v@[j])@ == spec_rows(mode)[j],
        decreases h - i,
    {
        v.push(row(mode, i));
        i = i + 1;
    }
    v
}

} // verus!
