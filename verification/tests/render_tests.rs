use brillig_dbg::breakpoints::BreakpointTable;
use brillig_dbg::render::{render_memory, render_variables, render_word};
use brillig_dbg::session::scopes_for_frame;

#[test]
fn render_word_gives_exact_decimal_digits() {
    assert_eq!(render_word(0), "0");
    assert_eq!(render_word(9), "9");
    assert_eq!(render_word(10), "10");
    assert_eq!(render_word(12345), "12345");
    assert_eq!(render_word(u128::MAX), "340282366920938463463374607431768211455");
}

#[test]
fn render_memory_joins_with_a_dot() {
    assert_eq!(render_memory(&vec![]), "");
    assert_eq!(render_memory(&vec![5]), "5");
    assert_eq!(render_memory(&vec![1, 23, 4]), "1.23.4");
}

#[test]
fn render_variables_names_each_word() {
    let v = render_variables(&vec![100, 0]);
    assert_eq!(v.len(), 2);
    assert_eq!(v[0].name, "Register 0");
    assert_eq!(v[0].value, "100");
    assert_eq!(v[1].name, "Register 1");
    assert_eq!(v[1].value, "0");
}

#[test]
fn scopes_exist_only_for_frame_zero() {
    let v = scopes_for_frame(0, 17);
    assert_eq!(v.len(), 1);
    assert_eq!(v[0].name, "Locals");
    assert_eq!(v[0].line, 17);
    assert!(scopes_for_frame(1, 17).is_empty());
    assert!(scopes_for_frame(-3, 17).is_empty());
}

#[test]
fn breakpoint_table_replaces_and_matches() {
    let mut table = BreakpointTable::empty();
    assert!(!table.matches(4));
    table.replace(vec![4, 4, 9]);
    assert!(table.matches(4));
    assert!(table.matches(9));
    assert!(!table.matches(5));
    table.replace(vec![5]);
    assert!(table.matches(5));
    assert!(!table.matches(4));
    assert!(!table.matches(9));
}
