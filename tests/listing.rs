use taskly::utils::{push_decimal, push_padded, text_eq, starts_with_dash, Todo, FlagArgs};
use taskly::{column_header, edit_statement, list_plan, rename_statement, RENAME_TODO, SELECT_TODOS};

#[test]
fn row_matches_std_formatting() {
    let t = Todo { id: 1, name: "buy milk".to_string(), status: "TODO".to_string() };
    assert_eq!(t.to_line(), format!("{0: <5}  {1: <20}  {2: <9}", 1, "buy milk", "TODO"));
    assert_eq!(t.to_line(), "1      buy milk              TODO     ");
}

#[test]
fn row_with_long_fields_is_not_cut() {
    let t = Todo {
        id: -123456,
        name: "a name that is longer than twenty".to_string(),
        status: "COMPLETED".to_string(),
    };
    assert_eq!(
        t.to_line(),
        format!("{0: <5}  {1: <20}  {2: <9}", -123456, "a name that is longer than twenty", "COMPLETED")
    );
}

#[test]
fn row_pads_by_characters() {
    let t = Todo { id: 42, name: "café".to_string(), status: "TODO".to_string() };
    assert_eq!(t.to_line(), format!("{0: <5}  {1: <20}  {2: <9}", 42, "café", "TODO"));
}

#[test]
fn header_line() {
    assert_eq!(column_header(), format!("{0: <5}  {1: <20}  {2: <9}", "ID", "NAME", "STATUS"));
    assert_eq!(column_header(), "ID     NAME                  STATUS   ");
}

#[test]
fn decimal_writing() {
    for n in [0isize, 7, 10, 99, 100, 305, -1, -40, isize::MAX, isize::MIN] {
        let mut s = String::from("x");
        push_decimal(&mut s, n);
        assert_eq!(s, format!("x{}", n));
    }
}

#[test]
fn padding() {
    let mut s = String::new();
    push_padded(&mut s, "ab", 4);
    assert_eq!(s, "ab  ");
    let mut t = String::new();
    push_padded(&mut t, "abcdef", 4);
    assert_eq!(t, "abcdef");
}

#[test]
fn text_helpers() {
    assert!(text_eq("list", "list"));
    assert!(!text_eq("list", "lis"));
    assert!(!text_eq("list", "lost"));
    assert!(text_eq("", ""));
    assert!(starts_with_dash("-c"));
    assert!(starts_with_dash("-"));
    assert!(!starts_with_dash("c-"));
    assert!(!starts_with_dash(""));
}

#[test]
fn listing_titles_and_queries() {
    let all = list_plan(FlagArgs::All);
    assert_eq!(all.title, "Here are all the  todos");
    assert_eq!(all.query, SELECT_TODOS);
    let done = list_plan(FlagArgs::CompletedOnly);
    assert_eq!(done.title, "Here are all the Completed todos");
    assert_eq!(done.query, "SELECT id,name,status FROM todo WHERE status='COMPLETED'");
    let pending = list_plan(FlagArgs::UncompletedOnly);
    assert_eq!(pending.title, "Here are all the Pending todos");
    assert_eq!(pending.query, "SELECT id,name,status FROM todo WHERE status='TODO'");
}

#[test]
fn edit_trims_the_input_line() {
    let st = edit_statement("3", "  new name \n");
    assert_eq!(st.sql, RENAME_TODO);
    assert_eq!(st.params, vec!["new name".to_string(), "3".to_string()]);
    let plain = rename_statement("3", "kept as is ");
    assert_eq!(plain.params, vec!["kept as is ".to_string(), "3".to_string()]);
}
