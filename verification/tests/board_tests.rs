use mize_dev::board::{alternate_colors, BuildBoard, RowShade};
use mize_dev::config::BuildConfig;
use mize_dev::data::DevModuleData;
use mize_dev::error::DevError;

fn data_with(names: &[&str]) -> DevModuleData {
    let mut d = DevModuleData::default();
    for n in names {
        let mut c = BuildConfig::new();
        c.set_path("modName", n);
        d.add_buildable(n.to_string(), format!("/src/{}", n), c, "make".to_string()).unwrap();
    }
    d
}

#[test]
fn statuses_default_to_idle() {
    let board = BuildBoard::new();
    assert_eq!(board.status_label("blob"), "idle");
    assert_eq!(board.output_text("blob"), "");
}

#[test]
fn begin_record_finish() {
    let d = data_with(&["a", "b"]);
    let mut board = BuildBoard::new();
    board.begin_build(&d.buildables);
    assert_eq!(board.status_label("a"), "building");
    assert_eq!(board.status_label("b"), "building");
    board.record_output("a", "line one").unwrap();
    board.record_output("a", "line two").unwrap();
    assert_eq!(board.output_text("a"), "line one\nline two\n");
    assert_eq!(board.output_text("b"), "");
    board.finish_build("a");
    assert_eq!(board.status_label("a"), "idle");
    assert_eq!(board.status_label("b"), "building");
    board.begin_build(&d.buildables);
    assert_eq!(board.output_text("a"), "");
    assert_eq!(board.status_label("a"), "building");
}

#[test]
fn output_for_unknown_buildable_is_refused() {
    let mut board = BuildBoard::new();
    assert_eq!(board.record_output("ghost", "x"), Err(DevError::NoOutputBuffer("ghost".to_string())));
}

#[test]
fn selected_info_shows_output_or_hint() {
    let d = data_with(&["a", "b"]);
    let mut board = BuildBoard::new();
    board.begin_build(&d.buildables);
    board.record_output("b", "hello").unwrap();
    assert_eq!(board.selected_info(&d.buildables, None), "No Module selected");
    assert_eq!(board.selected_info(&d.buildables, Some(1)), "hello\n");
    assert_eq!(board.selected_info(&d.buildables, Some(0)), "");
}

#[test]
fn rows_alternate_and_show_status() {
    let d = data_with(&["a", "b", "c"]);
    let mut board = BuildBoard::new();
    board.finish_build("b");
    board.statuses.insert("c", "building".to_string());
    let rows = board.list_rows(&d.buildables);
    assert_eq!(rows.len(), 3);
    assert_eq!(rows[0].name, "a");
    assert_eq!(rows[0].status, "idle");
    assert_eq!(rows[2].status, "building");
    assert_eq!(rows[1].activity, "active");
    assert_eq!(rows[0].shade, RowShade::Normal);
    assert_eq!(rows[1].shade, RowShade::Alternate);
    assert_eq!(rows[2].shade, RowShade::Normal);
    assert_eq!(alternate_colors(7), RowShade::Alternate);
}
