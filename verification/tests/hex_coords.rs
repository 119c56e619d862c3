use hexgrid::Direction;
use hexgrid::DirectionError;
use hexgrid::HexCoord;
use hexgrid::HexCubeCoord;

const ALL_DIRECTIONS: [Direction; 6] = [
    Direction::NE,
    Direction::N,
    Direction::NW,
    Direction::SW,
    Direction::S,
    Direction::SE,
];

#[test]
fn test_neighbor_axial() {
    let dirns = vec![
        Direction::N,
        Direction::SW,
        Direction::S,
        Direction::SE,
        Direction::NE,
        Direction::N,
        Direction::NW,
        Direction::S,
    ];
    let start = HexCoord::new(0, 0);
    let mut cur = start;
    for d in dirns {
        cur = cur.neighbor(d);
    }
    assert_eq!(cur, start);
}

#[test]
fn test_neighbor_cube() {
    let dirns = vec![
        Direction::N,
        Direction::SW,
        Direction::S,
        Direction::SE,
        Direction::NE,
        Direction::N,
        Direction::NW,
        Direction::S,
    ];
    let start = HexCubeCoord::new_unchecked(0, 0, 0);
    let mut cur = start;
    for d in dirns {
        cur = cur.neighbor(d);
    }
    assert_eq!(cur, start);
}

#[test]
fn test_distance_cube() {
    let start = HexCubeCoord::new(0, 0, 0).unwrap();
    let end = HexCubeCoord::new(-1, 3, -2).unwrap();
    assert_eq!(3, start.distance(end));
}

#[test]
fn test_direction_index_round_trip() {
    for d in ALL_DIRECTIONS {
        let i: usize = d.to_index();
        assert!(i < 6);
        assert_eq!(Direction::from_index(i), Ok(d));
    }
    assert_eq!(Direction::from_index(6), Err(DirectionError(6)));
    assert_eq!(Direction::from_index(100), Err(DirectionError(100)));
}

#[test]
fn test_direction_index_order() {
    assert_eq!(Direction::from_index(0), Ok(Direction::NE));
    assert_eq!(Direction::from_index(1), Ok(Direction::N));
    assert_eq!(Direction::from_index(2), Ok(Direction::NW));
    assert_eq!(Direction::from_index(3), Ok(Direction::SW));
    assert_eq!(Direction::from_index(4), Ok(Direction::S));
    assert_eq!(Direction::from_index(5), Ok(Direction::SE));
}

#[test]
fn test_direction_opposite() {
    assert_eq!(Direction::NE.opposite(), Direction::SW);
    assert_eq!(Direction::N.opposite(), Direction::S);
    assert_eq!(Direction::NW.opposite(), Direction::SE);
    assert_eq!(Direction::SW.opposite(), Direction::NE);
    assert_eq!(Direction::S.opposite(), Direction::N);
    assert_eq!(Direction::SE.opposite(), Direction::NW);
    for d in ALL_DIRECTIONS {
        assert_eq!(d.opposite().opposite(), d);
    }
}

#[test]
fn test_compass_cycle() {
    let start = HexCoord::new(5, -3);
    let mut cur = start;
    for d in ALL_DIRECTIONS {
        cur = cur.neighbor(d);
    }
    assert_eq!(cur, start);
}

#[test]
fn test_cube_invariant_rejection() {
    let bad = HexCubeCoord::new(1, 1, 1);
    match bad {
        Err(e) => {
            assert_eq!(e.x, 1);
            assert_eq!(e.y, 1);
            assert_eq!(e.z, 1);
        }
        Ok(_) => panic!("invariant violation was accepted"),
    }
    let good = HexCubeCoord::new(1, -1, 0);
    assert_eq!(good.unwrap().coords(), (1, -1, 0));
}

#[test]
fn test_cube_coords() {
    let c = HexCubeCoord::new_unchecked(2, -5, 3);
    assert_eq!(c.coords(), (2, -5, 3));
}

#[test]
fn test_axial_cube_round_trip() {
    let cases = vec![(0, 0), (1, 2), (-3, 5), (7, -7), (-4, -9)];
    for (q, r) in cases {
        let a = HexCoord::new(q, r);
        let c = HexCubeCoord::from_axial(a);
        let (x, y, z) = c.coords();
        assert_eq!(x + y + z, 0);
        assert_eq!(c.to_axial(), Ok(a));
    }
}

#[test]
fn test_cube_to_axial_rejection() {
    let c = HexCubeCoord::new_unchecked(2, 0, 1);
    match c.to_axial() {
        Err(e) => {
            assert_eq!((e.x, e.y, e.z), (2, 0, 1));
        }
        Ok(_) => panic!("invariant violation was accepted"),
    }
}

#[test]
fn test_neighbor_inverse() {
    let a = HexCoord::new(3, -2);
    for d in ALL_DIRECTIONS {
        assert_eq!(a.neighbor(d).neighbor(d.opposite()), a);
    }
    let c = HexCubeCoord::new(4, -1, -3).unwrap();
    for d in ALL_DIRECTIONS {
        assert_eq!(c.neighbor(d).neighbor(d.opposite()), c);
    }
}

#[test]
fn test_distance_axial() {
    let a = HexCoord::new(0, 0);
    let b = HexCoord::new(-1, -2);
    assert_eq!(a.distance(b), 3);
    assert_eq!(a.distance(a), 0);
    assert_eq!(b.distance(a), 3);
}

#[test]
fn test_distance_metric_laws() {
    let triples = [(0, 0, 0), (-1, 3, -2), (4, -1, -3), (-2, -2, 4)];
    for &(x, y, z) in &triples {
        let a = HexCubeCoord::new(x, y, z).unwrap();
        assert_eq!(a.distance(a), 0);
        for &(x2, y2, z2) in &triples {
            let b = HexCubeCoord::new(x2, y2, z2).unwrap();
            assert_eq!(a.distance(b), b.distance(a));
            for &(x3, y3, z3) in &triples {
                let c = HexCubeCoord::new(x3, y3, z3).unwrap();
                assert!(a.distance(c) <= a.distance(b) + b.distance(c));
            }
        }
    }
}

#[test]
fn test_distance_neighbor_steps() {
    // In cube space a N, NW, S or SE step is a unit move, while the NE and
    // SW offsets change all three cube components, two of them together.
    let a = HexCoord::new(2, 2);
    assert_eq!(a.distance(a.neighbor(Direction::N)), 1);
    assert_eq!(a.distance(a.neighbor(Direction::NW)), 1);
    assert_eq!(a.distance(a.neighbor(Direction::S)), 1);
    assert_eq!(a.distance(a.neighbor(Direction::SE)), 1);
    assert_eq!(a.distance(a.neighbor(Direction::NE)), 2);
    assert_eq!(a.distance(a.neighbor(Direction::SW)), 2);
}
