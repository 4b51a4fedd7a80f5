use osm_downloader::table::{format_results, MAX_CELL_CHARS, MAX_COL_WIDTH, ROW_DISPLAY_CAP};

fn names(v: &[&str]) -> Vec<String> {
    v.iter().map(|s| s.to_string()).collect()
}

fn row(v: &[&str]) -> Vec<String> {
    v.iter().map(|s| s.to_string()).collect()
}

#[test]
fn test_render_caps() {
    assert_eq!(MAX_CELL_CHARS, 80);
    assert_eq!(MAX_COL_WIDTH, 30);
    assert_eq!(ROW_DISPLAY_CAP, 50);
}

#[test]
fn test_render_basic_table() {
    let out = format_results(
        &names(&["id", "name"]),
        &vec![row(&["1", "alpha"]), row(&["2", "beta"])],
        false,
    );
    assert_eq!(
        out,
        "id | name \n\
         ---+------\n\
         1  | alpha\n\
         2  | beta \n\
         Rows: 2 | Columns: 2\n"
    );
}

#[test]
fn test_render_truncated_marker_and_summary() {
    let out = format_results(&names(&["c"]), &vec![row(&["x"])], true);
    assert_eq!(
        out,
        "c\n\
         -\n\
         x\n\
         ... (more rows truncated)\n\
         Rows: 1+ (showing 1) | Columns: 1\n"
    );
}

#[test]
fn test_render_clips_long_cells_and_caps_width() {
    let long = "a".repeat(100);
    let out = format_results(&names(&["v"]), &vec![vec![long]], false);
    // The cell is clipped to 80 characters plus a marker, the column width is
    // capped at 30, and the rendered cell is cut to the column width.
    let expected = format!(
        "v{}\n{}\n{}\nRows: 1 | Columns: 1\n",
        " ".repeat(29),
        "-".repeat(30),
        "a".repeat(30)
    );
    assert_eq!(out, expected);
}

#[test]
fn test_render_header_cut_to_column_width() {
    let wide = "x".repeat(35);
    let out = format_results(&names(&[&wide]), &vec![row(&["v"])], false);
    let expected = format!(
        "{}\n{}\nv{}\nRows: 1 | Columns: 1\n",
        "x".repeat(30),
        "-".repeat(30),
        " ".repeat(29)
    );
    assert_eq!(out, expected);
}

#[test]
fn test_render_clip_marker_visible_within_width() {
    // An 81-character value is clipped to 80 plus the marker; within a single
    // wide-enough column nothing further is cut. Keep the name wide enough
    // that the column is capped at 30 and the marker falls outside: use a
    // short value instead to see the marker directly.
    let v = "b".repeat(81);
    let clipped_len_column = format_results(&names(&["v"]), &vec![vec![v]], false);
    // Width capped at 30: only the first 30 clipped characters show.
    assert!(clipped_len_column.contains(&"b".repeat(30)));
    assert!(!clipped_len_column.contains(&"b".repeat(31)));
}

#[test]
fn test_render_empty_result() {
    let out = format_results(&names(&[]), &vec![], false);
    assert_eq!(out, "\n\nRows: 0 | Columns: 0\n");
}

#[test]
fn test_render_pads_mixed_widths() {
    let out = format_results(
        &names(&["a", "long_header", "c"]),
        &vec![row(&["xxxx", "y", "zz"])],
        false,
    );
    assert_eq!(
        out,
        "a    | long_header | c \n\
         -----+-------------+---\n\
         xxxx | y           | zz\n\
         Rows: 1 | Columns: 3\n"
    );
}
