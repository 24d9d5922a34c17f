use digital_rain::color::Rgb;
use digital_rain::color::color;
use digital_rain::column::Column;
use digital_rain::droplet::Droplet;
use digital_rain::screen::Screen;
use digital_rain::symbol::Symbol;

fn fg(r: u8, g: u8, b: u8) -> String {
    termion::color::Rgb(r, g, b).fg_string()
}

#[test]
fn color_black_at_zero() {
    assert_eq!(color(0), Rgb { r: 0, g: 0, b: 0 });
}

#[test]
fn color_white_at_full() {
    assert_eq!(color(255), Rgb { r: 255, g: 255, b: 255 });
}

#[test]
fn color_midpoint_exact() {
    // 255 * (128/255)^7 rounds to 2, (128/255)^1 gives 128 back,
    // 255 * (128/255)^4 rounds to 16.
    assert_eq!(color(128), Rgb { r: 2, g: 128, b: 16 });
}

#[test]
fn color_green_dominates_between_endpoints() {
    for b in 1..=254u8 {
        let c = color(b);
        assert!(c.r < c.g, "red not below green at brightness {}", b);
        assert!(c.b < c.g, "blue not below green at brightness {}", b);
        assert_eq!(c.g, b);
    }
}

#[test]
fn symbol_default_is_black_space() {
    let s = Symbol::default();
    assert_eq!(s.ch, ' ');
    assert_eq!(s.brightness, 0);
}

#[test]
fn symbol_darken_steps_down_by_ten() {
    let mut s = Symbol { ch: 'K', brightness: 200 };
    s.darken();
    assert_eq!(s.brightness, 190);
    assert_eq!(s.ch, 'K');
}

#[test]
fn symbol_darken_saturates_at_zero() {
    let mut s = Symbol { ch: 'K', brightness: 7 };
    s.darken();
    assert_eq!(s.brightness, 0);
    s.darken();
    assert_eq!(s.brightness, 0);
}

#[test]
fn symbol_set_resets_brightness() {
    let mut s = Symbol { ch: 'x', brightness: 13 };
    s.set('Q');
    assert_eq!(s.ch, 'Q');
    assert_eq!(s.brightness, 255);
}

#[test]
fn column_new_is_blank() {
    let c = Column::new(5);
    assert_eq!(c.symbols.len(), 5);
    for s in &c.symbols {
        assert_eq!(s.ch, ' ');
        assert_eq!(s.brightness, 0);
    }
}

#[test]
fn column_darken_acts_on_each_cell_independently() {
    let mut c = Column::new(4);
    c.set(0, 'A');
    c.symbols[1] = Symbol { ch: 'B', brightness: 9 };
    c.symbols[2] = Symbol { ch: 'C', brightness: 10 };
    c.darken();
    assert_eq!(c.symbols[0], Symbol { ch: 'A', brightness: 245 });
    assert_eq!(c.symbols[1], Symbol { ch: 'B', brightness: 0 });
    assert_eq!(c.symbols[2], Symbol { ch: 'C', brightness: 0 });
    assert_eq!(c.symbols[3], Symbol { ch: ' ', brightness: 0 });
}

#[test]
fn column_set_touches_one_row() {
    let mut c = Column::new(3);
    c.set(1, 'Z');
    assert_eq!(c.symbols[0], Symbol { ch: ' ', brightness: 0 });
    assert_eq!(c.symbols[1], Symbol { ch: 'Z', brightness: 255 });
    assert_eq!(c.symbols[2], Symbol { ch: ' ', brightness: 0 });
}

#[test]
fn droplet_new_random_stays_in_range() {
    let mut rng = rand::thread_rng();
    let width = 7usize;
    let height = 9usize;
    for _ in 0..2000 {
        let d = Droplet::new_random(&mut rng, width, height);
        assert!(d.row <= 0);
        assert!(d.row >= -(height as isize - 1));
        assert!(d.col < width);
    }
}

#[test]
fn droplet_update_falls_one_row() {
    let mut d = Droplet { row: -3, col: 2 };
    d.update(5, 10);
    assert_eq!(d.row, -2);
    assert_eq!(d.col, 2);
    let mut d = Droplet { row: 4, col: 0 };
    d.update(5, 10);
    assert_eq!(d.row, 5);
    assert_eq!(d.col, 0);
}

#[test]
fn droplet_update_wraps_to_top_with_random_column() {
    let width = 5usize;
    let height = 10usize;
    let mut seen = [0usize; 5];
    let trials = 5000;
    for _ in 0..trials {
        let mut d = Droplet { row: height as isize - 1, col: 1 };
        d.update(width, height);
        assert_eq!(d.row, 0, "row must reset to exactly 0 on wrap");
        assert!(d.col < width);
        seen[d.col] += 1;
    }
    // The new column is drawn uniformly from [0, width): each column must
    // turn up, and none may dominate, over many trials.
    let expected = trials / width;
    for (col, &count) in seen.iter().enumerate() {
        assert!(count > expected / 2, "column {} drawn too rarely: {}", col, count);
        assert!(count < expected * 2, "column {} drawn too often: {}", col, count);
    }
}

#[test]
fn screen_scenario_construct_darken_advance() {
    let mut s = Screen::new(3, 2);
    assert_eq!(s.width, 3);
    assert_eq!(s.height, 2);
    assert_eq!(s.columns.len(), 3);
    assert_eq!(s.droplets.len(), 3);
    for c in &s.columns {
        assert_eq!(c.symbols.len(), 2);
        for sym in &c.symbols {
            assert_eq!(sym.brightness, 0);
            assert_eq!(sym.ch, ' ');
        }
    }
    for d in &s.droplets {
        assert!(d.row <= 0);
        assert!(d.row > -2);
        assert!(d.col < 3);
    }
    // Darkening an all-black screen must not underflow.
    s.darken();
    for c in &s.columns {
        for sym in &c.symbols {
            assert_eq!(sym.brightness, 0);
            assert_eq!(sym.ch, ' ');
        }
    }
    // Advance once: exactly the droplets whose new row is visible strike
    // their cell; every other cell stays blank.
    let before: Vec<(isize, usize)> = s.droplets.iter().map(|d| (d.row, d.col)).collect();
    s.update_droplets();
    let mut hit = vec![vec![false; 2]; 3];
    for (i, d) in s.droplets.iter().enumerate() {
        let (old_row, old_col) = before[i];
        if old_row + 1 >= 2 {
            assert_eq!(d.row, 0);
            assert!(d.col < 3);
        } else {
            assert_eq!(d.row, old_row + 1);
            assert_eq!(d.col, old_col);
        }
        if d.row >= 0 {
            hit[d.col][d.row as usize] = true;
        }
    }
    for (ci, c) in s.columns.iter().enumerate() {
        for (ri, sym) in c.symbols.iter().enumerate() {
            if hit[ci][ri] {
                assert_eq!(sym.brightness, 255);
                assert!(sym.ch.is_ascii_uppercase());
            } else {
                assert_eq!(sym.brightness, 0);
                assert_eq!(sym.ch, ' ');
            }
        }
    }
}

#[test]
fn print_renders_blank_frame_exactly() {
    let s = Screen::new(2, 2);
    let mut out: Vec<char> = Vec::new();
    s.print(&mut out);
    let got: String = out.into_iter().collect();
    let cell = format!("{} ", fg(0, 0, 0));
    let line = format!("{}{}\r\n", cell, cell);
    let expected = format!("{}{}", line, line);
    assert_eq!(got, expected);
}

#[test]
fn print_symbol_carries_color_and_character() {
    let mut c = Column::new(2);
    c.set(1, 'X');
    let mut out: Vec<char> = Vec::new();
    c.print_symbol(&mut out, 1);
    let got: String = out.into_iter().collect();
    assert_eq!(got, format!("{}X", fg(255, 255, 255)));
    let mut out: Vec<char> = Vec::new();
    c.print_symbol(&mut out, 0);
    let got: String = out.into_iter().collect();
    assert_eq!(got, format!("{} ", fg(0, 0, 0)));
}
