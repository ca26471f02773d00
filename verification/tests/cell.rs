use game_of_life::cell::Cell;

#[test]
fn toggle_flips_dead_to_alive() {
    let mut cell = Cell::Dead;
    cell.toggle();
    assert_eq!(cell, Cell::Alive);
}

#[test]
fn toggle_flips_alive_to_dead() {
    let mut cell = Cell::Alive;
    cell.toggle();
    assert_eq!(cell, Cell::Dead);
}

#[test]
fn toggle_twice_restores() {
    let mut cell = Cell::Alive;
    cell.toggle();
    cell.toggle();
    assert_eq!(cell, Cell::Alive);
}

#[test]
fn count_is_one_for_alive_and_zero_for_dead() {
    assert_eq!(Cell::Alive.count(), 1);
    assert_eq!(Cell::Dead.count(), 0);
}
