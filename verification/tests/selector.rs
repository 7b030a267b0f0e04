use digital_rain::engine::select_free_cell;
use digital_rain::glyph::Glyph;
use digital_rain::AMOUNT_OF_COLUMNS;

fn glyph_at(column: u16, row: u32) -> Glyph {
    Glyph { column, row, is_trailing: false, remaining_spawns: 0, symbol: 0x30, opacity: 100 }
}

#[test]
fn selection_on_empty_grid_always_succeeds() {
    let mut rng = rand::thread_rng();
    let glyphs: Vec<Glyph> = Vec::new();
    for _ in 0..200 {
        let picked = select_free_cell(&mut rng, &glyphs, 45);
        let (column, row) = picked.expect("an empty grid always has a free cell");
        assert!(column < AMOUNT_OF_COLUMNS);
        assert!(row < 45);
    }
}

#[test]
fn selection_never_returns_an_occupied_cell() {
    let mut rng = rand::thread_rng();
    // occupy a diagonal band of a 60 x 3 grid
    let mut glyphs: Vec<Glyph> = Vec::new();
    for column in 0..AMOUNT_OF_COLUMNS {
        glyphs.push(glyph_at(column, (column % 3) as u32));
    }
    for _ in 0..500 {
        if let Some((column, row)) = select_free_cell(&mut rng, &glyphs, 3) {
            assert!(column < AMOUNT_OF_COLUMNS);
            assert!(row < 3);
            for g in glyphs.iter() {
                assert!(!(g.column == column && g.row == row as u32));
            }
        }
    }
}

#[test]
fn selection_on_saturated_grid_gives_up() {
    let mut rng = rand::thread_rng();
    // a one-row grid with every column occupied has no free cell at all
    let mut glyphs: Vec<Glyph> = Vec::new();
    for column in 0..AMOUNT_OF_COLUMNS {
        glyphs.push(glyph_at(column, 0));
    }
    let picked = select_free_cell(&mut rng, &glyphs, 1);
    assert!(picked.is_none());
}

#[test]
fn selection_without_rows_gives_up() {
    let mut rng = rand::thread_rng();
    let glyphs: Vec<Glyph> = Vec::new();
    assert!(select_free_cell(&mut rng, &glyphs, 0).is_none());
}
