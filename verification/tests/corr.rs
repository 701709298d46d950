use newdaq::corr::{grid_cell, spectrum_range, station_index, CorrProdMap, CpRecord, GridCell};

#[test]
fn products_by_pair() {
    let m = CorrProdMap::from_records(vec![
        CpRecord { nb: 0, a1: 0, a2: 0 },
        CpRecord { nb: 1, a1: 0, a2: 1 },
        CpRecord { nb: 2, a1: 1, a2: 1 },
        CpRecord { nb: 3, a1: 0, a2: 1 },
    ]);
    assert_eq!(m.get(0, 0), Some(0));
    // the last line for a pair counts
    assert_eq!(m.get(0, 1), Some(3));
    assert_eq!(m.get(1, 0), None);
    assert_eq!(m.spec_id(1, 0), Some(3));
    assert_eq!(m.spec_id(1, 1), Some(2));
    assert_eq!(m.spec_id(2, 0), None);
}

#[test]
fn stations() {
    let st = vec!["E01".to_string(), "E02".to_string(), "W01".to_string(), "E02".to_string()];
    assert_eq!(station_index(&st, &"E01".to_string()), Some(0));
    assert_eq!(station_index(&st, &"E02".to_string()), Some(3));
    assert_eq!(station_index(&st, &"X".to_string()), None);
}

#[test]
fn ranges() {
    assert_eq!(spectrum_range(0), (0, 8192));
    assert_eq!(spectrum_range(819), (819 * 8192, 820 * 8192));
}

#[test]
fn grid() {
    assert_eq!(grid_cell(0), Some(GridCell { row: 0, col: 0, amplitude: true }));
    assert_eq!(grid_cell(40), Some(GridCell { row: 0, col: 0, amplitude: false }));
    assert_eq!(grid_cell(81), Some(GridCell { row: 1, col: 1, amplitude: true }));
    assert_eq!(grid_cell(80), None);
    assert_eq!(grid_cell(3199), Some(GridCell { row: 39, col: 39, amplitude: false }));
}
