use blokus_moves::{shapes, Move, State};

/// The four starting corners, as (column, row) per player.
fn start_corner(player: usize) -> (i8, i8) {
    match player {
        0 => (0, 0),
        1 => (0, 19),
        2 => (19, 19),
        3 => (19, 0),
        _ => unreachable!(),
    }
}

/// Independent legality check on a fresh board: all cells are free and no
/// adjacency exclusions exist, so an anchor is legal exactly when the shape
/// lies on the board and covers the player's starting corner.
fn expected_fresh_moves(player: usize) -> Vec<Move> {
    let (cx, cy) = start_corner(player);
    let pieces = shapes();
    let mut out = Vec::new();
    for (id, p) in pieces.iter().enumerate() {
        let (w, h) = (p.width as i8, p.height as i8);
        for x in 0..=(20 - w) {
            for y in 0..=(20 - h) {
                let i = cx - x;
                let j = cy - y;
                let covers = i >= 0 && i < w && j >= 0 && j < h
                    && (p.shape_rows[j as usize] >> i) & 1 == 1;
                if covers {
                    out.push(Move::new(id, (x, y)));
                }
            }
        }
    }
    out
}

#[test]
fn test_fresh_board_matches_independent_check() {
    let s = State::new();
    for player in 0..4 {
        let mut got = s.get_moves(player);
        let mut expected = expected_fresh_moves(player);
        got.sort();
        expected.sort();
        assert_eq!(got, expected, "player {}", player);
    }
}

#[test]
fn test_empty_board_monomino() {
    let s = State::new();
    for player in 0..4 {
        let moves = s.get_moves(player);
        let mono: Vec<&Move> = moves.iter().filter(|m| m.piece == 0).collect();
        assert_eq!(mono.len(), 1, "player {}", player);
        assert_eq!(mono[0].pos, start_corner(player));
    }
}

#[test]
fn test_moves_stay_on_board() {
    let s = State::new();
    let pieces = shapes();
    for player in 0..4 {
        for m in s.get_moves(player) {
            let p = &pieces[m.piece];
            assert!(m.pos.0 >= 0 && m.pos.1 >= 0);
            assert!(m.pos.0 as i32 + p.width as i32 <= 20);
            assert!(m.pos.1 as i32 + p.height as i32 <= 20);
        }
    }
}

#[test]
fn test_boundary_five_long_pieces() {
    let s = State::new();
    let pieces = shapes();
    // Orientations five columns wide or five rows tall exist in the catalog
    // and are never reported hanging off the board.
    assert!(pieces.iter().any(|p| p.width == 5));
    assert!(pieces.iter().any(|p| p.height == 5));
    for player in 0..4 {
        for m in s.get_moves(player) {
            let p = &pieces[m.piece];
            if p.width == 5 || p.height == 5 {
                assert!(m.pos.0 as i32 + p.width as i32 <= 20);
                assert!(m.pos.1 as i32 + p.height as i32 <= 20);
            }
        }
    }
}

#[test]
fn test_id_ascending_order() {
    let s = State::new();
    for player in 0..4 {
        let moves = s.get_moves(player);
        for w in moves.windows(2) {
            assert!(w[0].piece <= w[1].piece);
            assert!(w[0] != w[1], "duplicate move");
        }
    }
}

#[test]
fn test_idempotence() {
    let s = State::new();
    for player in 0..4 {
        assert_eq!(s.get_moves(player), s.get_moves(player));
    }
}

#[test]
fn test_inventory_exhaustion() {
    let pieces = shapes();
    let before = State::new().get_moves(0);
    // Retire the group of orientation 5 (with its siblings) from player 0.
    let group = pieces[5].group_mask;
    let mut s = State::new();
    s.remove_group(0, 5);
    let after = s.get_moves(0);
    assert!(after.iter().all(|m| group >> m.piece & 1 == 0));
    let kept: Vec<&Move> = before.iter().filter(|m| group >> m.piece & 1 == 0).collect();
    assert_eq!(after.iter().collect::<Vec<_>>(), kept);
    // Other players are unaffected.
    assert_eq!(s.get_moves(1), State::new().get_moves(1));
}

#[test]
fn test_remove_group_then_all() {
    // Retiring every group leaves no moves at all.
    let mut s = State::new();
    for id in 0..91 {
        s.remove_group(2, id);
    }
    assert_eq!(s.get_moves(2), Vec::<Move>::new());
    assert_eq!(s.inventory(2), 0);
}

#[test]
fn test_inventory_full_at_start() {
    let s = State::new();
    for player in 0..4 {
        assert_eq!(s.inventory(player), (1u128 << 91) - 1);
    }
}

#[test]
fn test_windows_fresh_board() {
    let s = State::new();
    assert_eq!(s.occupancy_window(0, 20), vec![0u32; 20]);
    assert_eq!(s.occupancy_window(7, 5), vec![0u32; 5]);
    for player in 0..4 {
        assert_eq!(s.adjacency_window(player, 0, 20), vec![0u32; 20]);
    }
    let mut c0 = vec![0u32; 20];
    c0[0] = 1;
    assert_eq!(s.corner_window(0, 0, 20), c0);
    let mut c2 = vec![0u32; 20];
    c2[19] = 1 << 19;
    assert_eq!(s.corner_window(2, 0, 20), c2);
    assert_eq!(s.corner_window(1, 19, 1), vec![1u32]);
    assert_eq!(s.corner_window(3, 0, 1), vec![1u32 << 19]);
}

#[test]
fn test_move_new() {
    let m = Move::new(17, (3, -2));
    assert_eq!(m.piece, 17);
    assert_eq!(m.pos, (3, -2));
    assert_eq!(m.clone(), m);
}

#[test]
fn test_default_state() {
    let s: State = Default::default();
    assert_eq!(s.get_moves(0), State::new().get_moves(0));
}
