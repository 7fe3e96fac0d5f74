use codec_bench::table::{sort_rows, TableRow};

fn row(method: &str, bytes: usize, reduction: i32) -> TableRow {
    TableRow { method: method.to_string(), bytes, reduction }
}

fn methods(rows: &[TableRow]) -> Vec<String> {
    rows.iter().map(|r| r.method.clone()).collect()
}

fn reductions(rows: &[TableRow]) -> Vec<i32> {
    rows.iter().map(|r| r.reduction).collect()
}

#[test]
fn sorting_puts_the_greatest_reduction_first() {
    let mut rows = vec![row("a", 90, 10), row("b", 50, 50), row("c", 105, -5), row("d", 50, 50)];
    sort_rows(&mut rows);
    assert_eq!(reductions(&rows), vec![50, 50, 10, -5]);
}

#[test]
fn sorting_keeps_rows_of_equal_reduction_in_their_order() {
    let mut rows = vec![row("a", 90, 10), row("b", 50, 50), row("c", 105, -5), row("d", 50, 50)];
    sort_rows(&mut rows);
    assert_eq!(methods(&rows), vec!["b", "d", "a", "c"]);
    assert_eq!(rows[0].bytes, 50);
    assert_eq!(rows[2].bytes, 90);
    assert_eq!(rows[3].bytes, 105);
}

#[test]
fn sorting_the_same_rows_twice_gives_the_same_order() {
    let make = || {
        vec![
            row("a", 1, 3),
            row("b", 2, 3),
            row("c", 3, 7),
            row("d", 4, 3),
            row("e", 5, 7),
            row("f", 6, -1),
            row("g", 7, 3),
        ]
    };
    let mut first = make();
    let mut second = make();
    sort_rows(&mut first);
    sort_rows(&mut second);
    assert_eq!(methods(&first), methods(&second));
    assert_eq!(methods(&first), vec!["c", "e", "a", "b", "d", "g", "f"]);
}

#[test]
fn sorting_agrees_with_the_stable_sort_of_the_standard_library() {
    let mut state: u32 = 99;
    for len in 0..40usize {
        let mut rows: Vec<TableRow> = Vec::new();
        for i in 0..len {
            state = state.wrapping_mul(1664525).wrapping_add(1013904223);
            rows.push(row(&format!("m{}", i), i, ((state >> 24) % 7) as i32 - 3));
        }
        let mut expected = rows.clone();
        expected.sort_by(|a, b| b.reduction.cmp(&a.reduction));
        sort_rows(&mut rows);
        assert_eq!(methods(&rows), methods(&expected));
        assert_eq!(reductions(&rows), reductions(&expected));
    }
}

#[test]
fn sorting_handles_the_empty_and_the_single_table() {
    let mut none: Vec<TableRow> = Vec::new();
    sort_rows(&mut none);
    assert!(none.is_empty());
    let mut one = vec![row("only", 5, 1)];
    sort_rows(&mut one);
    assert_eq!(methods(&one), vec!["only"]);
}

#[test]
fn sorting_leaves_sorted_rows_alone_and_reverses_ascending_ones() {
    let mut sorted = vec![row("a", 1, 9), row("b", 2, 5), row("c", 3, 5), row("d", 4, i32::MIN)];
    sort_rows(&mut sorted);
    assert_eq!(methods(&sorted), vec!["a", "b", "c", "d"]);
    let mut rising = vec![row("a", 1, i32::MIN), row("b", 2, 0), row("c", 3, i32::MAX)];
    sort_rows(&mut rising);
    assert_eq!(methods(&rising), vec!["c", "b", "a"]);
}
