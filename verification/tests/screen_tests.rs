use tbank_bot::screen::chunk_rows;

fn labels(xs: &[&str]) -> Vec<String> {
    xs.iter().map(|x| x.to_string()).collect()
}

#[test]
fn chunking_into_rows_of_three() {
    let rows = chunk_rows(&labels(&["a", "b", "c", "d"]), 3);
    assert_eq!(rows, vec![labels(&["a", "b", "c"]), labels(&["d"])]);
}

#[test]
fn chunking_one_per_row_reads_top_to_bottom() {
    let rows = chunk_rows(&labels(&["x", "y"]), 1);
    assert_eq!(rows, vec![labels(&["x"]), labels(&["y"])]);
}

#[test]
fn chunking_nothing_gives_no_rows() {
    let rows = chunk_rows(&labels(&[]), 3);
    assert!(rows.is_empty());
}

#[test]
fn chunking_a_short_list_gives_one_row() {
    let rows = chunk_rows(&labels(&["a", "b"]), 3);
    assert_eq!(rows, vec![labels(&["a", "b"])]);
}
