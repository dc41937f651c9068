use snake_game::direction::Direction;
use snake_game::entity::Entity;
use snake_game::game_object::GameObject;
use snake_game::grid::{Grid, GridError};
use snake_game::snake::Snake;
use snake_game::utils::Coord;

fn snake(id: u128, x: i32) -> Snake {
    Snake::with_id(id, Coord { x, y: 10 }, Direction::Down, 3)
}

#[test]
fn two_distinct_objects_are_both_retrievable() {
    let mut g: Grid<Snake> = Grid::new();
    assert_eq!(g.add_game_object(snake(1, 1)), Ok(()));
    assert_eq!(g.add_game_object(snake(2, 2)), Ok(()));
    let a = g.remove_game_object_by_id(&1).expect("first object");
    assert_eq!(a.get_id(), 1);
    assert_eq!(a.get_body()[0], Coord { x: 1, y: 10 });
    let b = g.remove_game_object_by_id(&2).expect("second object");
    assert_eq!(b.get_id(), 2);
    assert_eq!(b.get_body()[0], Coord { x: 2, y: 10 });
}

#[test]
fn duplicate_id_is_refused() {
    let mut g: Grid<Snake> = Grid::new();
    assert_eq!(g.add_game_object(snake(7, 1)), Ok(()));
    assert_eq!(
        g.add_game_object(snake(7, 2)),
        Err(GridError::DuplicateId { id: 7, entity: Entity::Player })
    );
    let kept = g.remove_game_object_by_id(&7).expect("the first object stays");
    assert_eq!(kept.get_body()[0], Coord { x: 1, y: 10 });
    assert!(g.remove_game_object_by_id(&7).is_none());
}

#[test]
fn remove_absent_id_returns_none() {
    let mut g: Grid<Snake> = Grid::new();
    assert!(g.remove_game_object_by_id(&42).is_none());
    assert_eq!(g.add_game_object(snake(1, 1)), Ok(()));
    assert!(g.remove_game_object_by_id(&42).is_none());
    assert!(g.find_by_kind(Entity::Player).is_some());
}

#[test]
fn removed_id_can_be_added_again() {
    let mut g: Grid<Snake> = Grid::new();
    assert_eq!(g.add_game_object(snake(5, 1)), Ok(()));
    let s = g.remove_game_object_by_id(&5).expect("present");
    assert_eq!(g.add_game_object(s), Ok(()));
}

#[test]
fn find_by_kind_gives_first_of_kind() {
    let mut g: Grid<Snake> = Grid::new();
    assert!(g.find_by_kind(Entity::Player).is_none());
    assert_eq!(g.add_game_object(snake(1, 1)), Ok(()));
    assert_eq!(g.add_game_object(snake(2, 2)), Ok(()));
    assert_eq!(g.find_by_kind(Entity::Player).map(|o| o.get_id()), Some(1));
    assert!(g.find_by_kind(Entity::Enemy).is_none());
    assert!(g.find_by_kind(Entity::Obstacle).is_none());
}
