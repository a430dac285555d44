use deet::dwarf_data::same_text;
use deet::dwarf_data::DwarfData;
use deet::dwarf_data::Function;
use deet::dwarf_data::Line;

fn function(name: &str, file: &str, address: usize, text_length: usize) -> Function {
    Function { name: name.to_string(), file: file.to_string(), address, text_length }
}

fn line(file: &str, number: usize, address: usize) -> Line {
    Line { file: file.to_string(), number, address }
}

/// int f(int x) {        // 3   0x401126
///     return x + 1;     // 4   0x40112d
/// }                     // 5   0x401133
/// int main() {          // 7   0x401136
///     int y = f(2);     // 8   0x40113e
///     return y - 3;     // 9   0x40114b
/// }                     // 10  0x401151
fn sample() -> DwarfData {
    DwarfData::new(
        vec![
            function("f", "sample.c", 0x401126, 0x10),
            function("main", "sample.c", 0x401136, 0x1d),
            function("helper", "util.c", 0x401160, 0x20),
        ],
        vec![
            line("sample.c", 3, 0x401126),
            line("sample.c", 4, 0x40112d),
            line("sample.c", 5, 0x401133),
            line("sample.c", 7, 0x401136),
            line("sample.c", 8, 0x40113e),
            line("sample.c", 9, 0x40114b),
            line("sample.c", 10, 0x401151),
            line("util.c", 2, 0x401160),
            line("util.c", 4, 0x401170),
        ],
    )
}

#[test]
fn same_text_compares_characters() {
    assert!(same_text("main", "main"));
    assert!(same_text("", ""));
    assert!(!same_text("main", "Main"));
    assert!(!same_text("main", "main "));
    assert!(!same_text("", "a"));
}

#[test]
fn function_from_addr_finds_the_covering_function() {
    let data = sample();
    assert_eq!(data.get_function_from_addr(0x401126), Some("f".to_string()));
    assert_eq!(data.get_function_from_addr(0x401135), Some("f".to_string()));
    assert_eq!(data.get_function_from_addr(0x401136), Some("main".to_string()));
    assert_eq!(data.get_function_from_addr(0x401152), Some("main".to_string()));
    assert_eq!(data.get_function_from_addr(0x401170), Some("helper".to_string()));
}

#[test]
fn function_from_addr_outside_every_function() {
    let data = sample();
    assert_eq!(data.get_function_from_addr(0x401125), None);
    assert_eq!(data.get_function_from_addr(0x401153), None);
    assert_eq!(data.get_function_from_addr(0x401180), None);
    assert_eq!(data.get_function_from_addr(0), None);
    assert_eq!(data.get_function_from_addr(usize::MAX), None);
}

#[test]
fn function_of_zero_length_covers_nothing() {
    let data = DwarfData::new(vec![function("empty", "a.c", 0x1000, 0)], vec![]);
    assert_eq!(data.get_function_from_addr(0x1000), None);
}

#[test]
fn first_of_overlapping_functions_wins() {
    let data = DwarfData::new(
        vec![function("outer", "a.c", 0x1000, 0x100), function("inner", "a.c", 0x1010, 0x10)],
        vec![],
    );
    assert_eq!(data.get_function_from_addr(0x1010), Some("outer".to_string()));
}

#[test]
fn line_from_addr_is_the_last_row_at_or_before_it() {
    let data = sample();
    let at = |addr: usize| data.get_line_from_addr(addr).map(|l| (l.file, l.number, l.address));
    assert_eq!(at(0x401126), Some(("sample.c".to_string(), 3, 0x401126)));
    assert_eq!(at(0x40112c), Some(("sample.c".to_string(), 3, 0x401126)));
    assert_eq!(at(0x40112d), Some(("sample.c".to_string(), 4, 0x40112d)));
    assert_eq!(at(0x401135), Some(("sample.c".to_string(), 5, 0x401133)));
    assert_eq!(at(0x401136), Some(("sample.c".to_string(), 7, 0x401136)));
    assert_eq!(at(0x401143), Some(("sample.c".to_string(), 8, 0x40113e)));
    assert_eq!(at(0x401152), Some(("sample.c".to_string(), 10, 0x401151)));
    assert_eq!(at(0x40117f), Some(("util.c".to_string(), 4, 0x401170)));
}

#[test]
fn line_from_addr_outside_every_function() {
    let data = sample();
    assert!(data.get_line_from_addr(0x401125).is_none());
    assert!(data.get_line_from_addr(0x401153).is_none());
    assert!(data.get_line_from_addr(0x7fff_0000_0000).is_none());
}

#[test]
fn line_from_addr_ignores_rows_of_other_functions_and_files() {
    let data = DwarfData::new(
        vec![function("g", "b.c", 0x2000, 0x40)],
        vec![line("a.c", 1, 0x2000), line("b.c", 9, 0x1ff0), line("b.c", 12, 0x2010)],
    );
    assert!(data.get_line_from_addr(0x2008).is_none());
    let found = data.get_line_from_addr(0x2010).expect("row of g");
    assert_eq!((found.file.as_str(), found.number, found.address), ("b.c", 12, 0x2010));
}

#[test]
fn addr_for_line_is_the_first_row_at_that_line_or_later() {
    let data = sample();
    assert_eq!(data.get_addr_for_line(None, 3), Some(0x401126));
    assert_eq!(data.get_addr_for_line(None, 1), Some(0x401126));
    assert_eq!(data.get_addr_for_line(None, 6), Some(0x401136));
    assert_eq!(data.get_addr_for_line(None, 8), Some(0x40113e));
    assert_eq!(data.get_addr_for_line(None, 10), Some(0x401151));
    assert_eq!(data.get_addr_for_line(None, 11), None);
}

#[test]
fn addr_for_line_in_a_named_file() {
    let data = sample();
    assert_eq!(data.get_addr_for_line(Some("util.c"), 1), Some(0x401160));
    assert_eq!(data.get_addr_for_line(Some("util.c"), 3), Some(0x401170));
    assert_eq!(data.get_addr_for_line(Some("util.c"), 5), None);
    assert_eq!(data.get_addr_for_line(Some("sample.c"), 9), Some(0x40114b));
    assert_eq!(data.get_addr_for_line(Some("other.c"), 1), None);
}

#[test]
fn addr_for_function_by_name() {
    let data = sample();
    assert_eq!(data.get_addr_for_function(None, "main"), Some(0x401136));
    assert_eq!(data.get_addr_for_function(None, "f"), Some(0x401126));
    assert_eq!(data.get_addr_for_function(None, "helper"), Some(0x401160));
    assert_eq!(data.get_addr_for_function(None, "g"), None);
    assert_eq!(data.get_addr_for_function(None, ""), None);
    assert_eq!(data.get_addr_for_function(Some("util.c"), "helper"), Some(0x401160));
    assert_eq!(data.get_addr_for_function(Some("sample.c"), "helper"), None);
}

#[test]
fn empty_symbols_know_nothing() {
    let data = DwarfData::new(vec![], vec![]);
    assert_eq!(data.get_function_from_addr(0x401126), None);
    assert!(data.get_line_from_addr(0x401126).is_none());
    assert_eq!(data.get_addr_for_line(None, 1), None);
    assert_eq!(data.get_addr_for_function(None, "main"), None);
}

#[test]
fn same_source_line_compares_file_and_number() {
    let a = line("sample.c", 8, 0x40113e);
    assert!(a.same_source_line(&line("sample.c", 8, 0x401143)));
    assert!(!a.same_source_line(&line("sample.c", 9, 0x40113e)));
    assert!(!a.same_source_line(&line("util.c", 8, 0x40113e)));
}
