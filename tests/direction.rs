use snake_game::direction::Direction;
use snake_game::utils::Coord;

const ALL: [Direction; 4] = [Direction::Up, Direction::Down, Direction::Left, Direction::Right];

#[test]
fn vector_round_trip_all_directions() {
    for d in ALL {
        assert_eq!(Direction::from_vector(d.to_vector()), d);
    }
}

#[test]
fn unit_vectors() {
    assert_eq!(Direction::Up.to_vector(), Coord { x: 0, y: -1 });
    assert_eq!(Direction::Down.to_vector(), Coord { x: 0, y: 1 });
    assert_eq!(Direction::Left.to_vector(), Coord { x: -1, y: 0 });
    assert_eq!(Direction::Right.to_vector(), Coord { x: 1, y: 0 });
    assert_eq!(Coord::from(Direction::Left), Coord { x: -1, y: 0 });
}

#[test]
fn from_vector_of_each_unit_vector() {
    assert_eq!(Direction::from_vector(Coord { x: 0, y: -1 }), Direction::Up);
    assert_eq!(Direction::from_vector(Coord { x: 0, y: 1 }), Direction::Down);
    assert_eq!(Direction::from_vector(Coord { x: -1, y: 0 }), Direction::Left);
    assert_eq!(Direction::from_vector(Coord { x: 1, y: 0 }), Direction::Right);
}

#[test]
fn not_orthogonal_to_itself_or_opposite() {
    for d in ALL {
        assert!(!d.is_orthogonal(d));
        assert!(!d.is_orthogonal(d.opposite()));
    }
}

#[test]
fn orthogonal_quarter_turns() {
    assert!(Direction::Up.is_orthogonal(Direction::Left));
    assert!(Direction::Up.is_orthogonal(Direction::Right));
    assert!(Direction::Down.is_orthogonal(Direction::Left));
    assert!(Direction::Down.is_orthogonal(Direction::Right));
    assert!(Direction::Left.is_orthogonal(Direction::Up));
    assert!(Direction::Left.is_orthogonal(Direction::Down));
    assert!(Direction::Right.is_orthogonal(Direction::Up));
    assert!(Direction::Right.is_orthogonal(Direction::Down));
}

#[test]
fn opposites() {
    assert_eq!(Direction::Up.opposite(), Direction::Down);
    assert_eq!(Direction::Down.opposite(), Direction::Up);
    assert_eq!(Direction::Left.opposite(), Direction::Right);
    assert_eq!(Direction::Right.opposite(), Direction::Left);
}
