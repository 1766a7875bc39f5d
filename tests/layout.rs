use virtual_terminal::{layout, screen_position, CellGrid, Rgba, ScreenPosition, VirtualTerminal};

fn terminal(rows: u16, columns: u16, font_size: u32) -> VirtualTerminal {
    VirtualTerminal::new(rows, columns, font_size, Rgba::white(), Rgba::gray())
}

fn position_of(reqs: &[virtual_terminal::RenderRequest], grid: &CellGrid, row: u16, column: u16) -> ScreenPosition {
    let visible: Vec<_> = grid.cells().iter().filter(|c| !c.style.skip).collect();
    let k = visible.iter().position(|c| c.row == row && c.column == column).unwrap();
    reqs[k].position
}

#[test]
fn scenario_ten_by_five() {
    let t = terminal(10, 5, 40);
    let g = CellGrid::new(&t);
    assert_eq!(g.len(), 50);
    let reqs = layout(&g, &t);
    assert_eq!(reqs.len(), 50);
    let p = position_of(&reqs, &g, 3, 2);
    // 120 pixels up, 40 pixels right
    assert_eq!(p.bottom_half_px, 240);
    assert_eq!(p.left_half_px, 80);
}

#[test]
fn scenario_forty_by_thirty() {
    let t = terminal(40, 30, 40);
    let g = CellGrid::new(&t);
    assert_eq!(g.len(), 1200);
    let reqs = layout(&g, &t);
    assert_eq!(reqs.len(), 1200);
    let p = position_of(&reqs, &g, 0, 0);
    assert_eq!(p, ScreenPosition { bottom_half_px: 0, left_half_px: 0 });
}

#[test]
fn scenario_no_rows() {
    let t = terminal(0, 5, 40);
    let g = CellGrid::new(&t);
    assert_eq!(g.len(), 0);
    assert!(layout(&g, &t).is_empty());
    let t = terminal(5, 0, 40);
    assert!(layout(&CellGrid::new(&t), &t).is_empty());
}

#[test]
fn position_follows_row_column_and_font_size() {
    assert_eq!(screen_position(0, 0, 40), ScreenPosition { bottom_half_px: 0, left_half_px: 0 });
    assert_eq!(screen_position(3, 2, 40), ScreenPosition { bottom_half_px: 240, left_half_px: 80 });
    // an odd font size puts columns on half pixels: 3 * 7 / 2 = 10.5 pixels
    assert_eq!(screen_position(1, 3, 7), ScreenPosition { bottom_half_px: 14, left_half_px: 21 });
    let big = screen_position(u16::MAX, u16::MAX, u32::MAX);
    assert_eq!(big.bottom_half_px, 2 * 65535u64 * 4294967295u64);
    assert_eq!(big.left_half_px, 65535u64 * 4294967295u64);
}

#[test]
fn every_request_matches_its_cell() {
    let t = terminal(4, 3, 30);
    let g = CellGrid::new(&t);
    let reqs = layout(&g, &t);
    assert_eq!(reqs.len(), 12);
    for (req, cell) in reqs.iter().zip(g.cells().iter()) {
        assert_eq!(req.symbol, cell.symbol);
        assert_eq!(req.font_size, 30);
        assert_eq!(req.position.bottom_half_px, 2 * cell.row as u64 * 30);
        assert_eq!(req.position.left_half_px, cell.column as u64 * 30);
    }
}

#[test]
fn position_does_not_depend_on_other_cells() {
    let small = terminal(4, 4, 40);
    let large = terminal(9, 7, 40);
    let gs = CellGrid::new(&small);
    let gl = CellGrid::new(&large);
    let rs = layout(&gs, &small);
    let rl = layout(&gl, &large);
    for r in 0..4u16 {
        for c in 0..4u16 {
            assert_eq!(position_of(&rs, &gs, r, c), position_of(&rl, &gl, r, c));
        }
    }
}

#[test]
fn layout_twice_gives_the_same_requests() {
    let t = terminal(6, 5, 40);
    let mut g = CellGrid::new(&t);
    g.set_symbol(2, 2, "x".to_string());
    let first = layout(&g, &t);
    let second = layout(&g, &t);
    assert_eq!(first.len(), second.len());
    for (a, b) in first.iter().zip(second.iter()) {
        assert_eq!(a.position, b.position);
        assert_eq!(a.symbol, b.symbol);
        assert_eq!(a.font_size, b.font_size);
    }
}

#[test]
fn skipped_cells_are_not_drawn() {
    let t = terminal(2, 2, 40);
    let mut g = CellGrid::new(&t);
    let mut style = g.get(1, 0).unwrap().style;
    style.skip = true;
    assert!(g.set_style(1, 0, style));
    g.set_symbol(0, 1, "Q".to_string());
    let reqs = layout(&g, &t);
    assert_eq!(reqs.len(), 3);
    let placed: Vec<(u64, u64)> =
        reqs.iter().map(|r| (r.position.bottom_half_px, r.position.left_half_px)).collect();
    assert_eq!(placed, vec![(0, 0), (0, 40), (80, 40)]);
    assert_eq!(reqs[1].symbol, "Q");
}

#[test]
fn layout_uses_the_terminal_font_size() {
    let built = terminal(2, 2, 40);
    let g = CellGrid::new(&built);
    let other = terminal(2, 2, 10);
    let reqs = layout(&g, &other);
    assert!(reqs.iter().all(|r| r.font_size == 10));
    assert_eq!(reqs[3].position, ScreenPosition { bottom_half_px: 20, left_half_px: 10 });
}
