use mssqlrust::dataset::data_table::name_of_table;
use mssqlrust::text::{append_chars, append_decimal, chars_of, string_of};

#[test]
fn characters_of_a_string_and_back() {
    assert_eq!(chars_of(""), Vec::<char>::new());
    assert_eq!(chars_of("a@1"), vec!['a', '@', '1']);
    assert_eq!(chars_of("caf\u{e9}\u{1f600}"), vec!['c', 'a', 'f', '\u{e9}', '\u{1f600}']);
    assert_eq!(string_of(&vec![]), "");
    assert_eq!(string_of(&vec!['E', 'X', 'E', 'C']), "EXEC");
    let text = "SELECT N'\u{4e2d}\u{6587}'";
    assert_eq!(string_of(&chars_of(text)), text);
}

#[test]
fn characters_are_appended() {
    let mut chars = vec!['a'];
    append_chars(&mut chars, &vec!['b', 'c']);
    append_chars(&mut chars, &vec![]);
    assert_eq!(chars, vec!['a', 'b', 'c']);
}

#[test]
fn numbers_are_written_in_decimal() {
    for n in [0u64, 1, 9, 10, 11, 99, 100, 101, 12_345, 1_000_000, u32::MAX as u64, u64::MAX] {
        let mut chars = vec!['@', 'P'];
        append_decimal(&mut chars, n);
        assert_eq!(string_of(&chars), format!("@P{}", n));
    }
}

#[test]
fn table_names_are_written_from_the_ordinal() {
    assert_eq!(name_of_table(0), "table0");
    assert_eq!(name_of_table(1), "table1");
    assert_eq!(name_of_table(10), "table10");
    assert_eq!(name_of_table(usize::MAX), format!("table{}", usize::MAX));
}
