use dominator_kit::joint::{joint_poll, joint_step, Change, JointPoll, JointStep};
use dominator_kit::table::{
    alphabetical_sort, arrange, next_direction, rows_of, sort_column, SortDirection, SortMovement, TableValues,
};
use dominator_kit::ty::Reactive;
use futures_signals::signal::Mutable;

#[test]
fn static_and_untouched_dynamic_read_the_same() {
    for v in ["", "hello", "ünïcode"] {
        let fixed: Reactive<String> = Reactive::from(v.to_string());
        let live: Reactive<String> = Reactive::from(Mutable::new(v.to_string()));
        assert_eq!(fixed.current(), live.current());
        assert!(matches!(fixed, Reactive::Static(_)));
        assert!(matches!(live, Reactive::Dynamic(_)));
    }
}

#[test]
fn dynamic_follows_its_cell() {
    let cell = Mutable::new("red".to_string());
    let live: Reactive<String> = Reactive::from(cell.clone());
    assert_eq!(live.current(), "red");
    cell.set("blue".to_string());
    assert_eq!(live.current(), "blue");
}

#[test]
fn default_reactive_is_empty_static() {
    let r: Reactive<String> = Reactive::default();
    assert!(matches!(r, Reactive::Static(_)));
    assert_eq!(r.current(), "");
}

#[test]
fn joint_emits_fresh_pair() {
    let a = Mutable::new(1);
    let b = Mutable::new("x".to_string());
    a.set(2);
    assert_eq!(joint_poll(Change::Changed, Change::Pending, &a, &b), JointPoll::Ready((2, "x".to_string())));
    b.set("y".to_string());
    assert_eq!(joint_poll(Change::Pending, Change::Changed, &a, &b), JointPoll::Ready((2, "y".to_string())));
    assert_eq!(joint_poll(Change::Pending, Change::Pending, &a, &b), JointPoll::Wait);
    assert_eq!(joint_poll(Change::Ended, Change::Ended, &a, &b), JointPoll::End);
    assert_eq!(joint_poll(Change::Ended, Change::Changed, &a, &b), JointPoll::Ready((2, "y".to_string())));
}

#[test]
fn joint_keeps_emitting_after_one_side_ends() {
    assert_eq!(joint_step(Change::Ended, Change::Changed), JointStep::Emit);
    assert_eq!(joint_step(Change::Ended, Change::Pending), JointStep::Wait);
    assert_eq!(joint_step(Change::Changed, Change::Ended), JointStep::Emit);
    assert_eq!(joint_step(Change::Ended, Change::Ended), JointStep::End);
    assert_eq!(joint_step(Change::Pending, Change::Pending), JointStep::Wait);
    assert_eq!(joint_step(Change::Changed, Change::Changed), JointStep::Emit);
}

#[test]
fn alphabetical_order() {
    assert!(matches!(alphabetical_sort("b", "a"), SortMovement::Up));
    assert!(matches!(alphabetical_sort("a", "b"), SortMovement::Down));
    assert!(matches!(alphabetical_sort("abc", "abc"), SortMovement::Stay));
    assert!(matches!(alphabetical_sort("ab", "abc"), SortMovement::Down));
    assert!(matches!(alphabetical_sort("B", "a"), SortMovement::Down));
    assert!(matches!(alphabetical_sort("", ""), SortMovement::Stay));
    assert!(matches!(alphabetical_sort("é", "z"), SortMovement::Up));
}

#[test]
fn sort_direction_cycles() {
    assert_eq!(next_direction(SortDirection::Unsorted), SortDirection::Ascending);
    assert_eq!(next_direction(SortDirection::Ascending), SortDirection::Descending);
    assert_eq!(next_direction(SortDirection::Descending), SortDirection::Unsorted);
}

#[test]
fn arrange_follows_order() {
    let values = vec!["a".to_string(), "b".to_string(), "c".to_string()];
    assert_eq!(arrange(&values, &vec![2, 0, 1], false), vec!["c", "a", "b"]);
    assert_eq!(arrange(&values, &vec![2, 0, 1], true), vec!["b", "a", "c"]);
    assert!(arrange(&values, &vec![], false).is_empty());
}

#[test]
fn table_values_collects_cells() {
    let mut column: TableValues<u8> = TableValues::default();
    assert!(column.values.is_empty());
    assert!(column.title.is_empty());
    assert!(column.sort.is_none());
    column.value("1");
    column.value("2");
    assert_eq!(column.values, vec!["1".to_string(), "2".to_string()]);
}

fn column(title: &str, cells: &[&str]) -> TableValues<u8> {
    let mut c: TableValues<u8> = TableValues::default();
    c.title = title.to_string();
    for cell in cells {
        c.value(cell);
    }
    c
}

#[test]
fn sort_column_finds_first_titled() {
    let data = vec![column("a", &[]), column("b", &[]), column("b", &[])];
    assert_eq!(sort_column(&data, &("b".to_string(), SortDirection::Ascending)), Some(1));
    assert_eq!(sort_column(&data, &("b".to_string(), SortDirection::Unsorted)), None);
    assert_eq!(sort_column(&data, &("z".to_string(), SortDirection::Descending)), None);
}

#[test]
fn rows_read_across_columns() {
    let data = vec![column("a", &["1", "2", "3"]), column("b", &["x", "y"])];
    assert_eq!(rows_of(&data), vec![vec!["1", "x"], vec!["2", "y"]]);
    let empty: Vec<TableValues<u8>> = Vec::new();
    assert!(rows_of(&empty).is_empty());
}
