use blokus_moves::shapes;

fn tiles_of(rows: &[u32; 8]) -> u32 {
    rows.iter().map(|r| r.count_ones()).sum()
}

#[test]
fn test_catalog_has_91_entries() {
    assert_eq!(shapes().len(), 91);
}

#[test]
fn test_catalog_bounds() {
    for p in shapes() {
        assert!(1 <= p.width && p.width <= 5);
        assert!(1 <= p.height && p.height <= 5);
        for j in 0..8 {
            if j >= p.height as usize {
                assert_eq!(p.shape_rows[j], 0);
            } else {
                assert!(p.shape_rows[j] != 0);
                assert!(p.shape_rows[j] < 1u32 << p.width);
            }
        }
    }
}

#[test]
fn test_catalog_groups() {
    let pieces = shapes();
    // Every entry's own bit is set in its group mask, and entries share a
    // group mask exactly when the masks are equal.
    for (i, p) in pieces.iter().enumerate() {
        assert!(p.group_mask >> i & 1 == 1, "entry {} not in its own group", i);
    }
    // The group mask of an entry is the OR of the bit positions of exactly
    // the entries carrying that mask.
    let mut distinct: Vec<u128> = Vec::new();
    for p in pieces.iter() {
        if !distinct.contains(&p.group_mask) {
            distinct.push(p.group_mask);
        }
    }
    assert_eq!(distinct.len(), 21);
    let mut union: u128 = 0;
    for g in distinct.iter() {
        let mut or_of_members: u128 = 0;
        for (i, p) in pieces.iter().enumerate() {
            if p.group_mask == *g {
                or_of_members |= 1u128 << i;
            }
        }
        assert_eq!(or_of_members, *g);
        assert_eq!(union & g, 0, "groups overlap");
        union |= g;
    }
    assert_eq!(union, (1u128 << 91) - 1);
}

#[test]
fn test_catalog_tile_multiset() {
    let pieces = shapes();
    let mut distinct: Vec<u128> = Vec::new();
    for p in pieces.iter() {
        if !distinct.contains(&p.group_mask) {
            distinct.push(p.group_mask);
        }
    }
    // (tile count, orientation count) per group.
    let mut profile: Vec<(u32, usize)> = Vec::new();
    for g in distinct.iter() {
        let members: Vec<_> = pieces.iter().filter(|p| p.group_mask == *g).collect();
        let tiles = tiles_of(&members[0].shape_rows);
        for m in members.iter() {
            assert_eq!(tiles_of(&m.shape_rows), tiles, "orientations of one group differ in tiles");
        }
        profile.push((tiles, members.len()));
    }
    profile.sort();
    let mut expected = vec![
        (1, 1),
        (2, 2),
        (3, 2),
        (3, 4),
        (4, 1),
        (4, 2),
        (4, 4),
        (4, 4),
        (4, 8),
        (5, 1),
        (5, 2),
        (5, 4),
        (5, 4),
        (5, 4),
        (5, 4),
        (5, 4),
        (5, 8),
        (5, 8),
        (5, 8),
        (5, 8),
        (5, 8),
    ];
    expected.sort();
    assert_eq!(profile, expected);
}

#[test]
fn test_orientations_distinct_within_group() {
    let pieces = shapes();
    for i in 0..pieces.len() {
        for j in (i + 1)..pieces.len() {
            if pieces[i].group_mask == pieces[j].group_mask {
                let same = pieces[i].width == pieces[j].width
                    && pieces[i].height == pieces[j].height
                    && pieces[i].shape_rows == pieces[j].shape_rows;
                assert!(!same, "orientations {} and {} are identical", i, j);
            }
        }
    }
}
