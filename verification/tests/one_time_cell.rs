use halogen_os::lateinit::{CellState, LateInit};

#[test]
fn first_init_stores_and_get_returns_it() {
    let mut cell: LateInit<u32> = LateInit::new();
    cell.init(42);
    assert_eq!(*cell.get(), 42);
    assert_eq!(*cell.get(), 42);
}

#[test]
fn get_mut_updates_the_stored_value() {
    let mut cell: LateInit<u32> = LateInit::new();
    cell.init(7);
    *cell.get_mut() = 8;
    assert_eq!(*cell.get(), 8);
}

#[test]
fn cell_state_initializes_exactly_once() {
    let state: CellState<u32> = CellState::Empty;
    let state = state.init_step(5);
    assert_eq!(state, CellState::Initialized(5));
    assert_eq!(state.read(), Some(&5));
}

#[test]
fn second_init_poisons_the_cell() {
    let state: CellState<u32> = CellState::Empty;
    let state = state.init_step(5);
    let state = state.init_step(6);
    assert_eq!(state, CellState::Poisoned);
    assert_eq!(state.read(), None);
}

#[test]
fn reading_before_init_yields_nothing() {
    let state: CellState<u32> = CellState::Empty;
    assert_eq!(state.read(), None);
}
