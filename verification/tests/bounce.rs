use snowflake_bounce::Bouncer;
use snowflake_bounce::Color;
use snowflake_bounce::DrawOp;
use snowflake_bounce::SymbolMode;
use snowflake_bounce::geometry;

fn bouncer_at(
    x: u16,
    y: u16,
    dx: i32,
    dy: i32,
    max_x: u16,
    max_y: u16,
    mode: SymbolMode,
) -> Bouncer {
    Bouncer {
        x,
        y,
        prev_x: x,
        prev_y: y,
        dx,
        dy,
        color: Color::Blue,
        max_x,
        max_y,
        mode,
    }
}

const ALL_MODES: [SymbolMode; 5] = [
    SymbolMode::SnowflakeSmall,
    SymbolMode::SnowflakeLarge,
    SymbolMode::NixOS,
    SymbolMode::Arch,
    SymbolMode::MiddleFinger,
];

#[test]
fn dimensions_per_mode() {
    assert_eq!(geometry::dimensions(SymbolMode::SnowflakeSmall), (1, 1));
    assert_eq!(geometry::dimensions(SymbolMode::SnowflakeLarge), (5, 3));
    assert_eq!(geometry::dimensions(SymbolMode::NixOS), (46, 19));
    assert_eq!(geometry::dimensions(SymbolMode::Arch), (46, 19));
    assert_eq!(geometry::dimensions(SymbolMode::MiddleFinger), (2, 1));
}

#[test]
fn rows_count_matches_height() {
    for mode in ALL_MODES {
        let (_w, h) = geometry::dimensions(mode);
        assert_eq!(geometry::rows(mode).len(), h as usize);
    }
}

#[test]
fn rows_content_snowflakes() {
    assert_eq!(geometry::rows(SymbolMode::SnowflakeSmall), vec!["❄"]);
    assert_eq!(
        geometry::rows(SymbolMode::SnowflakeLarge),
        vec!["  ❄  ", " ❄❄❄ ", "  ❄  "]
    );
    assert_eq!(geometry::rows(SymbolMode::MiddleFinger), vec!["🖕"]);
}

#[test]
fn rows_content_logos() {
    let nix = geometry::rows(SymbolMode::NixOS);
    assert_eq!(nix[0], "          ::::.    ':::::     ::::'          ");
    assert_eq!(nix[9], ":::::::::::::                 :::::::::::::  ");
    assert_eq!(nix[18], "         .::::      ::::      '::::.         ");
    let arch = geometry::rows(SymbolMode::Arch);
    assert_eq!(arch[0], "                      ▄                       ");
    assert_eq!(arch[18], "    ▟▛▀                               ▀▜▙     ");
    for (i, line) in nix.iter().enumerate() {
        assert_eq!(geometry::row(SymbolMode::NixOS, i as u16), *line);
    }
}

#[test]
fn small_snowflake_bounces_off_right_edge() {
    // bounds (79,23), 1x1 glyph at (79,10), moving right
    let mut b = bouncer_at(79, 10, 1, 1, 79, 23, SymbolMode::SnowflakeSmall);
    b.update();
    assert_eq!(b.x, 78);
    assert_eq!(b.dx, -1);
    assert_eq!(b.y, 11);
    assert_eq!(b.dy, 1);
    assert_eq!(b.prev_x, 79);
    assert_eq!(b.prev_y, 10);
}

#[test]
fn large_logo_clamps_on_right_collision() {
    // 46x19 glyph at (10,5) in bounds (50,25), moving down-right:
    // 10+1+46 >= 50, so x clamps to 50-46 = 4 and dx reverses
    let mut b = bouncer_at(10, 5, 1, 1, 50, 25, SymbolMode::NixOS);
    b.update();
    assert_eq!(b.x, 4);
    assert_eq!(b.dx, -1);
}

#[test]
fn update_without_collision_keeps_color_and_velocity() {
    let mut b = bouncer_at(20, 10, 1, -1, 79, 23, SymbolMode::SnowflakeLarge);
    b.color = Color::Magenta;
    b.update();
    assert_eq!(b.x, 21);
    assert_eq!(b.y, 9);
    assert_eq!(b.dx, 1);
    assert_eq!(b.dy, -1);
    assert_eq!(b.color, Color::Magenta);
    assert_eq!(b.prev_x, 20);
    assert_eq!(b.prev_y, 10);
    assert_eq!(b.mode, SymbolMode::SnowflakeLarge);
}

#[test]
fn update_low_edge_clamps_to_zero() {
    let mut b = bouncer_at(0, 0, -1, -1, 79, 23, SymbolMode::SnowflakeSmall);
    b.update();
    assert_eq!(b.x, 0);
    assert_eq!(b.y, 0);
    assert_eq!(b.dx, 1);
    assert_eq!(b.dy, 1);
}

#[test]
fn update_glyph_wider_than_terminal_stays_at_zero() {
    // 46-wide glyph on a 10-column axis: both edges collide, the low edge
    // rule wins after one step right
    let mut b = bouncer_at(1, 1, 1, 1, 10, 40, SymbolMode::NixOS);
    b.update();
    assert_eq!(b.x, 0);
    assert_eq!(b.dx, -1);
}

#[test]
fn update_double_collision_reverses_both_axes() {
    let mut b = bouncer_at(0, 0, -1, -1, 10, 10, SymbolMode::SnowflakeSmall);
    b.update();
    assert_eq!((b.x, b.y), (0, 0));
    assert_eq!((b.dx, b.dy), (1, 1));
}

#[test]
fn update_position_is_reproducible() {
    // same state twice: the post-update position and velocity agree even
    // though the collision recolor is random
    for _ in 0..20 {
        let mut a = bouncer_at(79, 10, 1, 1, 79, 23, SymbolMode::SnowflakeSmall);
        let mut b = bouncer_at(79, 10, 1, 1, 79, 23, SymbolMode::SnowflakeSmall);
        a.update();
        b.update();
        assert_eq!((a.x, a.y, a.dx, a.dy), (b.x, b.y, b.dx, b.dy));
    }
}

#[test]
fn construction_fits_bounds() {
    // terminal size (80,24): bounds (79,23), largest glyph wholly on-screen
    for _ in 0..50 {
        let b = Bouncer::new(80, 24);
        assert_eq!(b.max_x, 79);
        assert_eq!(b.max_y, 23);
        assert_eq!(b.mode, SymbolMode::NixOS);
        assert_eq!(b.color, Color::Blue);
        assert!(b.x + 46 <= 79);
        assert!(b.y + 19 <= 23);
        assert_eq!(b.prev_x, b.x);
        assert_eq!(b.prev_y, b.y);
        assert!(b.dx == 1 || b.dx == -1);
        assert!(b.dy == 1 || b.dy == -1);
    }
}

#[test]
fn default_uses_the_fallback_extent() {
    let b = Bouncer::default();
    assert_eq!((b.max_x, b.max_y), (79, 23));
    assert_eq!(b.mode, SymbolMode::NixOS);
    assert_eq!(b.color, Color::Blue);
    assert!(b.x + 46 <= 79);
    assert!(b.y + 19 <= 23);
}

#[test]
fn construction_on_tiny_terminal_clamps_to_origin() {
    let b = Bouncer::new(0, 0);
    assert_eq!((b.max_x, b.max_y), (0, 0));
    assert_eq!((b.x, b.y), (0, 0));
}

#[test]
fn resize_clamps_position_and_previous_position() {
    // from (100,40) to (40,15) with the 46x19 logo at (50,20):
    // new bounds (39,14); 50+46 >= 39 so x = max(39-46,0) = 0
    let mut b = bouncer_at(50, 20, 1, 1, 99, 39, SymbolMode::NixOS);
    b.prev_x = 50;
    b.prev_y = 20;
    b.resize(40, 15);
    assert_eq!((b.max_x, b.max_y), (39, 14));
    assert_eq!(b.x, 0);
    assert_eq!(b.y, 0);
    assert_eq!(b.prev_x, 0);
    assert_eq!(b.prev_y, 0);
}

#[test]
fn resize_keeps_interior_position() {
    let mut b = bouncer_at(3, 2, -1, 1, 79, 23, SymbolMode::SnowflakeLarge);
    b.resize(60, 20);
    assert_eq!((b.max_x, b.max_y), (59, 19));
    assert_eq!((b.x, b.y), (3, 2));
    assert_eq!((b.prev_x, b.prev_y), (3, 2));
    assert_eq!((b.dx, b.dy), (-1, 1));
}

#[test]
fn resize_to_zero_saturates_bounds() {
    let mut b = bouncer_at(5, 5, 1, 1, 79, 23, SymbolMode::SnowflakeSmall);
    b.resize(0, 0);
    assert_eq!((b.max_x, b.max_y), (0, 0));
    assert_eq!((b.x, b.y), (0, 0));
}

#[test]
fn cycle_symbol_follows_the_cycle() {
    let mut b = bouncer_at(1, 1, 1, 1, 79, 23, SymbolMode::SnowflakeSmall);
    b.cycle_symbol();
    assert_eq!(b.mode, SymbolMode::SnowflakeLarge);
    b.cycle_symbol();
    assert_eq!(b.mode, SymbolMode::NixOS);
    b.cycle_symbol();
    assert_eq!(b.mode, SymbolMode::SnowflakeSmall);
}

#[test]
fn special_modes_leave_toward_the_cycle() {
    let mut b = bouncer_at(1, 1, 1, 1, 79, 23, SymbolMode::SnowflakeSmall);
    b.set_middle_finger();
    assert_eq!(b.mode, SymbolMode::MiddleFinger);
    b.cycle_symbol();
    assert_eq!(b.mode, SymbolMode::SnowflakeSmall);
    b.set_arch();
    assert_eq!(b.mode, SymbolMode::Arch);
    b.cycle_symbol();
    assert_eq!(b.mode, SymbolMode::SnowflakeSmall);
}

#[test]
fn mode_switch_does_not_move_the_glyph() {
    let mut b = bouncer_at(12, 7, 1, -1, 79, 23, SymbolMode::SnowflakeSmall);
    b.set_arch();
    assert_eq!((b.x, b.y), (12, 7));
    assert_eq!((b.prev_x, b.prev_y), (12, 7));
}

#[test]
fn cycle_color_picks_from_palette_and_changes_nothing_else() {
    let palette = [
        Color::Green,
        Color::Blue,
        Color::White,
        Color::Yellow,
        Color::Cyan,
        Color::Magenta,
        Color::Red,
    ];
    let mut b = bouncer_at(12, 7, 1, -1, 79, 23, SymbolMode::NixOS);
    for _ in 0..30 {
        b.cycle_color();
        assert!(palette.contains(&b.color));
        assert_eq!((b.x, b.y), (12, 7));
        assert_eq!((b.dx, b.dy), (1, -1));
        assert_eq!(b.mode, SymbolMode::NixOS);
    }
}

#[test]
fn render_ops_erase_then_draw() {
    let mut b = bouncer_at(3, 2, 1, 1, 79, 23, SymbolMode::SnowflakeLarge);
    b.prev_x = 5;
    b.prev_y = 4;
    b.color = Color::Red;
    let ops = b.render_ops();
    assert_eq!(ops.len(), 6);
    let expect_rows = ["  ❄  ", " ❄❄❄ ", "  ❄  "];
    for k in 0..3usize {
        match &ops[k] {
            DrawOp::Erase { x, y, blank } => {
                assert_eq!(*x, 5);
                assert_eq!(*y, 4 + k as u16);
                assert_eq!(blank, "     ");
            }
            other => panic!("expected an erase instruction, got {:?}", other),
        }
        match &ops[3 + k] {
            DrawOp::Row { x, y, color, text } => {
                assert_eq!(*x, 3);
                assert_eq!(*y, 2 + k as u16);
                assert_eq!(*color, Color::Red);
                assert_eq!(text, expect_rows[k]);
            }
            other => panic!("expected a glyph row, got {:?}", other),
        }
    }
}

#[test]
fn render_ops_skips_lines_at_the_bottom_edge() {
    // three-line glyph with only its first line above the row limit
    let mut b = bouncer_at(0, 22, 1, 1, 79, 23, SymbolMode::SnowflakeLarge);
    b.prev_y = 21;
    let ops = b.render_ops();
    // erase lines 21 and 22 are visible (< 23), draw line only 22
    assert_eq!(ops.len(), 3);
    match &ops[2] {
        DrawOp::Row { y, .. } => assert_eq!(*y, 22),
        other => panic!("expected a glyph row, got {:?}", other),
    }
}

#[test]
fn render_ops_caps_columns_at_the_bound() {
    let mut b = bouncer_at(200, 0, 1, 1, 79, 23, SymbolMode::SnowflakeSmall);
    b.prev_x = 300;
    let ops = b.render_ops();
    assert_eq!(ops.len(), 2);
    match &ops[0] {
        DrawOp::Erase { x, .. } => assert_eq!(*x, 79),
        other => panic!("expected an erase instruction, got {:?}", other),
    }
    match &ops[1] {
        DrawOp::Row { x, .. } => assert_eq!(*x, 79),
        other => panic!("expected a glyph row, got {:?}", other),
    }
}

#[test]
fn render_ops_emits_nothing_beyond_the_addressable_space() {
    let mut b = bouncer_at(0, 65535, 1, 1, 65535, 65535, SymbolMode::SnowflakeLarge);
    b.prev_y = 65534;
    let ops = b.render_ops();
    // the row limit is capped at 65534, so nothing at or above it is emitted
    assert!(ops.is_empty());
}

#[test]
fn draw_reaches_the_terminal_sink() {
    let b = bouncer_at(1, 1, 1, 1, 79, 23, SymbolMode::SnowflakeSmall);
    let mut out = std::io::stdout();
    assert!(b.draw(&mut out).is_ok());
}
