use ant_walker::ant::Ant;
use ant_walker::direction::Direction;
use ant_walker::grid::Grid;
use ant_walker::pos::MapPos;
use ant_walker::pos::Pos;
use ant_walker::snapshot::gray_bytes;
use ant_walker::snapshot::pack_bits;
use ant_walker::snapshot::unpack_bits;

#[test]
fn naive_test_directions() {
    assert_eq!(Direction::North.cw(), Direction::East);
    assert_eq!(Direction::North.ccw(), Direction::West);
    assert_eq!(Direction::North.cw().cw(), Direction::South);
    assert_eq!(Direction::North.ccw().ccw(), Direction::South);
}

#[test]
fn serious_test_directions() {
    assert_eq!(Direction::North.cw(), Direction::East);
    assert_eq!(Direction::North.ccw(), Direction::West);
    assert_eq!(Direction::North.cw().cw(), Direction::South);
    assert_eq!(Direction::North.ccw().ccw(), Direction::South);
}

#[test]
fn naive_check_map_bounds() {
    let mut map = Grid::new_white(1024, 1024);

    let mut ant = Ant::new(&map, Pos::new(0, 0), Direction::North)
        .expect("Can't spawn ant on invalid position");

    assert!(!ant.walk(&mut map)); // ant can't go any further
}

#[test]
fn serious_check_map_bounds() {
    let mut map = Grid::new_white(1, 1);

    let mut ant = Ant::new(&map, Pos::new(0, 0), Direction::North)
        .expect("Can't spawn ant on invalid position");

    assert!(!ant.walk(&mut map)); // ant can't go any further
}

#[test]
fn rotations_cycle_every_heading() {
    let all = [
        Direction::North,
        Direction::East,
        Direction::South,
        Direction::West,
    ];
    for d in all {
        assert_eq!(d.ccw().cw(), d);
        assert_eq!(d.cw().ccw(), d);
        assert_eq!(d.cw().cw().cw().cw(), d);
    }
}

#[test]
fn unit_vectors_match_headings() {
    assert_eq!(Direction::North.to_shift(), Pos::new(0, -1));
    assert_eq!(Direction::East.to_shift(), Pos::new(1, 0));
    assert_eq!(Direction::South.to_shift(), Pos::new(0, 1));
    assert_eq!(Direction::West.to_shift(), Pos::new(-1, 0));
}

#[test]
fn validate_succeeds_everywhere_inside() {
    let g = Grid::new_white(3, 3);
    for y in 0..3isize {
        for x in 0..3isize {
            let p = MapPos::validate_pos(&g, Pos::new(x, y)).expect("in-bounds must validate");
            assert_eq!(p.x() as isize, x);
            assert_eq!(p.y() as isize, y);
            // The validated position reads the same cell the safe accessor reads.
            assert_eq!(Some(g.read_validated(p)), g.get(&Pos::new(x, y)));
        }
    }
}

#[test]
fn validate_rejects_outside_and_keeps_coordinate() {
    let g = Grid::new_white(3, 3);
    let outside = [
        Pos::new(-1, 0),
        Pos::new(0, -1),
        Pos::new(3, 0),
        Pos::new(0, 3),
        Pos::new(-7, 11),
        Pos::new(isize::MIN, isize::MAX),
    ];
    for p in outside {
        assert_eq!(MapPos::validate_pos(&g, p), Err(p));
    }
}

#[test]
fn toggle_twice_restores_cell_and_count() {
    let mut g = Grid::new_white(3, 3);
    let p = MapPos::validate_pos(&g, Pos::new(2, 1)).unwrap();
    let before = g.count_black_tiles();
    assert!(!g.toggle(p)); // now black
    assert_eq!(g.count_black_tiles(), before + 1);
    assert!(g.toggle(p)); // white again
    assert_eq!(g.get(&Pos::new(2, 1)), Some(true));
    assert_eq!(g.count_black_tiles(), before);

    // Any even number of toggles leaves cell and count unchanged.
    for _ in 0..4 {
        g.toggle(p);
    }
    assert_eq!(g.get(&Pos::new(2, 1)), Some(true));
    assert_eq!(g.count_black_tiles(), before);
}

#[test]
fn one_by_one_run_halts_after_single_step() {
    let mut map = Grid::new_white(1, 1);
    let mut ant = Ant::new(&map, Pos::new(0, 0), Direction::North)
        .expect("start position must be valid");

    let (steps, halted) = ant.walk_until_end(&mut map, 100);

    assert_eq!(steps, 1);
    assert!(halted);
    assert_eq!(map.get(&Pos::new(0, 0)), Some(false)); // the single cell is black
    assert_eq!(map.count_black_tiles(), 1);
}

#[test]
fn first_step_on_three_by_three_turns_west() {
    let mut map = Grid::new_white(3, 3);
    let mut ant = Ant::new(&map, Pos::new(1, 1), Direction::North)
        .expect("start position must be valid");

    let active = ant.walk(&mut map);

    assert!(active);
    assert_eq!(map.get(&Pos::new(1, 1)), Some(false)); // center turned black
    assert_eq!(ant.dir(), Direction::West); // black cell: counterclockwise
    assert_eq!(ant.pos().x(), 0);
    assert_eq!(ant.pos().y(), 1);
    assert_eq!(map.count_black_tiles(), 1);
}

#[test]
fn invalid_start_fails_and_mutates_nothing() {
    let g = Grid::new_white(4, 4);
    match Ant::new(&g, Pos::new(-1, 0), Direction::North) {
        Err(rejected) => assert_eq!(rejected, Pos::new(-1, 0)),
        Ok(_) => panic!("an out-of-bounds start must be rejected"),
    }
    assert_eq!(g.count_black_tiles(), 0);
}

#[test]
fn snapshot_round_trips_through_packed_bytes() {
    // 5 x 3 = 15 cells: the packed form has a partly used final byte.
    let mut g = Grid::new_white(5, 3);
    for (x, y) in [(0, 0), (4, 2), (2, 1), (3, 0)] {
        let p = MapPos::validate_pos(&g, Pos::new(x, y)).unwrap();
        g.toggle(p);
    }
    let snap = g.snapshot();
    let bytes = pack_bits(&snap);
    assert_eq!(bytes.len(), 2);
    let back = unpack_bits(&bytes, snap.len());
    assert_eq!(back, snap);

    let g2 = Grid::from_cells(5, 3, &back).expect("matching length must import");
    assert_eq!(g2.snapshot(), snap);
    assert_eq!(g2.count_black_tiles(), g.count_black_tiles());
}

#[test]
fn snapshot_round_trips_on_byte_aligned_area() {
    // 4 x 2 = 8 cells: the area is an exact number of bytes.
    let mut g = Grid::new_white(4, 2);
    let p = MapPos::validate_pos(&g, Pos::new(3, 1)).unwrap();
    g.toggle(p);
    let snap = g.snapshot();
    assert_eq!(snap.len(), 8);
    let bytes = pack_bits(&snap);
    assert_eq!(bytes.len(), 1);
    assert_eq!(bytes[0], 0b1111_1110); // white is 1; only the last cell is black
    let back = unpack_bits(&bytes, 8);
    assert_eq!(back, snap);
    assert_eq!(g.count_black_tiles(), 1);
}

#[test]
fn from_cells_rejects_wrong_length() {
    let bits = vec![true; 7];
    assert!(Grid::from_cells(4, 2, &bits).is_none());
}

#[test]
fn gray_bytes_expands_each_cell() {
    let bits = vec![true, false, false, true];
    let bytes = gray_bytes(&bits);
    assert_eq!(bytes, vec![255, 0, 0, 255]);
}

#[test]
fn new_grid_is_all_white() {
    let g = Grid::new_white(2, 2);
    assert_eq!(g.count_black_tiles(), 0);
    for y in 0..2isize {
        for x in 0..2isize {
            assert_eq!(g.get(&Pos::new(x, y)), Some(true));
        }
    }
    assert_eq!(g.get(&Pos::new(2, 0)), None);
    assert_eq!(g.width(), 2);
    assert_eq!(g.height(), 2);
}

#[test]
fn zero_budget_takes_no_step() {
    let mut map = Grid::new_white(2, 2);
    let mut ant = Ant::new(&map, Pos::new(0, 0), Direction::East)
        .expect("start position must be valid");
    let (steps, halted) = ant.walk_until_end(&mut map, 0);
    assert_eq!(steps, 0);
    assert!(!halted);
    assert_eq!(map.count_black_tiles(), 0);
}

#[test]
fn long_run_matches_repeated_single_steps() {
    let mut a = Grid::new_white(16, 16);
    let mut b = Grid::new_white(16, 16);
    let mut ant_a = Ant::new(&a, Pos::new(8, 8), Direction::North).unwrap();
    let mut ant_b = Ant::new(&b, Pos::new(8, 8), Direction::North).unwrap();

    let (steps, halted) = ant_a.walk_until_end(&mut a, 1_000_000);

    let mut active = true;
    let mut count: u64 = 0;
    while active && count < 1_000_000 {
        active = ant_b.walk(&mut b);
        count += 1;
    }

    assert_eq!(steps, count);
    assert_eq!(halted, !active);
    assert_eq!(a.count_black_tiles(), b.count_black_tiles());
    assert_eq!(a.snapshot(), b.snapshot());
    assert_eq!(ant_a.pos(), ant_b.pos());
    assert_eq!(ant_a.dir(), ant_b.dir());
}
