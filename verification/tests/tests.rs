use cell_ref::{Cell, CellExt};
use core::cell::Cell as StdCell;

#[derive(Default)]
struct DefaultType(u8);

#[derive(Default, Clone)]
struct DefaultCloneType(u8);

#[test]
fn copy_type() {
    for mut cell in [Cell::new(5), 5.into()] {
        cell.with_mut(|x| *x += 1);
        assert!(cell.get() == 6);
        cell.set(10);
        cell.with(|x| assert!(*x == 10));
    }
}

#[test]
fn default_type() {
    let inner = || DefaultType(8);
    for mut cell in [Cell::new(inner()), inner().into()] {
        cell.with_mut(|x| x.0 += 4);
        cell.with(|x| assert!(x.0 == 12));
        cell.set(DefaultType(20));
        cell.with(|x| assert!(x.0 == 20));
    }
}

#[test]
fn default_clone_type() {
    let inner = || DefaultCloneType(5);
    for mut cell in [Cell::new(inner()), inner().into()] {
        cell.with_mut(|x| x.0 *= 2);
        assert!(cell.get().0 == 10);
        cell.set(DefaultCloneType(15));
        cell.with(|x| assert!(x.0 == 15));
    }
}

#[test]
fn convert() {
    let c = Cell::<u8>::from(StdCell::new(1));
    assert!(c.get() == 1);
    let c = StdCell::<u8>::from(Cell::new(2));
    assert!(c.get() == 2);
}

#[test]
fn round_trip_copy() {
    assert!(Cell::new(7u32).get() == 7);
    assert!(Cell::new(-3i64).get() == -3);
}

#[test]
fn mutation_visible_copy() {
    let m = |x: &mut u8| *x *= 2;
    let mut direct = 10u8;
    m(&mut direct);
    let mut cell = Cell::new(10u8);
    cell.with_mut(m);
    assert!(cell.get() == direct);
    assert!(cell.get() == 20);
}

#[test]
fn mutation_visible_default() {
    let m = |x: &mut DefaultType| x.0 += 7;
    let mut direct = DefaultType(1);
    m(&mut direct);
    let mut cell = Cell::new(DefaultType(1));
    cell.with_mut(m);
    cell.with(|x| assert!(x.0 == direct.0));
    cell.with(|x| assert!(x.0 == 8));
}

#[test]
fn with_does_not_mutate() {
    let cell = Cell::new(41u8);
    let next = cell.with(|x| *x + 1);
    assert!(next == 42);
    assert!(cell.get() == 41);

    let mut cell = Cell::new(vec![1u8, 2, 3]);
    let len = cell.with(Vec::len);
    assert!(len == 3);
    assert!(cell.get() == vec![1u8, 2, 3]);
}

#[test]
fn conversion_round_trip() {
    let std_cell = StdCell::new(9u8);
    let cell = Cell::<u8>::from(std_cell);
    let std_cell = StdCell::<u8>::from(cell);
    assert!(std_cell.get() == 9);

    let cell = Cell::<u8>::from(StdCell::new(11u8));
    let cell = Cell::<u8>::from(StdCell::<u8>::from(cell));
    assert!(cell.get() == 11);

    assert!(Cell::new(3u16).into_inner() == 3);
    assert!(Cell::from(4u16).into_inner() == 4);
}

#[test]
fn scenario_small_counter() {
    let mut c1 = Cell::new(2u8);
    c1.with_mut(|x| *x += 3);
    assert!(c1.get() == 5);
}

#[test]
fn scenario_vector() {
    let mut c2 = Cell::new(vec![1, 2, 3]);
    c2.with_mut(|v| v.push(4));
    assert!(c2.with(Vec::len) == 4);
    let v = c2.get();
    assert!(v == vec![1, 2, 3, 4]);
}

#[test]
fn scenario_default_counter() {
    let mut cell = Cell::<DefaultType>::default();
    cell.with(|x| assert!(x.0 == 0));
    cell.with_mut(|x| x.0 += 4);
    cell.with(|x| assert!(x.0 == 4));
}

#[test]
fn take_leaves_placeholder() {
    let mut cell = Cell::new(DefaultType(9));
    let taken = cell.take();
    assert!(taken.0 == 9);
    cell.with(|x| assert!(x.0 == 0));
}

#[test]
fn delegated_traits() {
    assert!(Cell::new(1u8) == Cell::new(1u8));
    assert!(Cell::new(1u8) != Cell::new(2u8));
    assert!(Cell::new(1u8) < Cell::new(2u8));
    assert!(Cell::new(2u8) >= Cell::new(2u8));
    assert!(Cell::<u8>::default().get() == 0);
    let cell = Cell::new(6u8);
    assert!(cell.clone().get() == 6);
    let shown = format!("{:?}", Cell::new(3u8));
    assert!(shown.contains('3'));
}
