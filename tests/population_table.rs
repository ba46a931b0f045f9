use tskit::error::{PopulationId, TskitError};
use tskit::flags::TableClearOptions;
use tskit::metadata::MetadataRoundtrip;
use tskit::population_table::{OwnedPopulationTable, PopulationTableRow};

fn collect(table: &OwnedPopulationTable) -> Vec<PopulationTableRow> {
    let mut out = Vec::new();
    let mut it = table.iter();
    while let Some(row) = it.next() {
        out.push(row);
    }
    out
}

#[test]
fn population_table_scenario() {
    let mut populations = OwnedPopulationTable::default();
    let first = populations.add_row().unwrap();
    assert_eq!(first, PopulationId(0));
    assert_eq!(populations.num_rows().0, 1);
    let m: u32 = 42;
    let second = populations.add_row_with_metadata(&m).unwrap();
    assert_eq!(second, PopulationId(1));
    match populations.metadata::<u32>(PopulationId(1)) {
        Some(Ok(v)) => assert_eq!(v, 42),
        _ => panic!("metadata of row 1 should decode"),
    }
    assert!(populations.metadata::<u32>(PopulationId(0)).is_none());
    assert!(populations.row(PopulationId(5)).is_none());
    assert_eq!(populations.clear(TableClearOptions::default()).unwrap(), 0);
    assert_eq!(populations.num_rows().0, 0);
    assert!(populations.row(PopulationId(0)).is_none());
}

#[test]
fn clear_leaves_no_rows() {
    let mut t = OwnedPopulationTable::default();
    t.add_row().unwrap();
    t.add_row_with_raw_metadata(vec![1, 2]).unwrap();
    t.clear(TableClearOptions::default()).unwrap();
    assert_eq!(t.num_rows().0, 0);
    assert!(collect(&t).is_empty());
    assert!(t.iter().next().is_none());
}

#[test]
fn add_row_ids_are_dense() {
    let mut t = OwnedPopulationTable::default();
    for i in 0..10 {
        assert_eq!(t.add_row().unwrap(), PopulationId(i));
    }
    assert_eq!(t.num_rows().0, 10);
}

#[test]
fn metadata_round_trip() {
    let mut t = OwnedPopulationTable::default();
    for m in [0u32, 1, 0xdead_beef, u32::MAX] {
        let id = t.add_row_with_metadata(&m).unwrap();
        match t.metadata::<u32>(id) {
            Some(Ok(v)) => assert_eq!(v, m),
            _ => panic!("round trip failed"),
        }
    }
}

#[test]
fn u32_codec_is_little_endian() {
    let bytes = 0x0403_0201u32.encode().unwrap();
    assert_eq!(bytes, vec![1, 2, 3, 4]);
    assert_eq!(u32::decode(&[4, 3, 2, 1]).unwrap(), 0x0102_0304);
    assert!(u32::decode(&[1, 2, 3]).is_err());
}

#[test]
fn undecodable_metadata_is_an_error() {
    let mut t = OwnedPopulationTable::default();
    let id = t.add_row_with_raw_metadata(vec![1, 2, 3]).unwrap();
    match t.metadata::<u32>(id) {
        Some(Err(TskitError::MetadataError { .. })) => {}
        _ => panic!("expected a decode error"),
    }
}

#[test]
fn empty_metadata_differs_from_none() {
    let mut t = OwnedPopulationTable::default();
    t.add_row_with_raw_metadata(Vec::new()).unwrap();
    t.add_row().unwrap();
    assert_eq!(t.row(PopulationId(0)).unwrap().metadata, Some(Vec::new()));
    assert_eq!(t.row(PopulationId(1)).unwrap().metadata, None);
    assert!(matches!(t.metadata::<u32>(PopulationId(0)), Some(Err(_))));
}

#[test]
fn row_out_of_range_is_none() {
    let mut t = OwnedPopulationTable::default();
    assert!(t.row(PopulationId(0)).is_none());
    assert!(t.row(PopulationId(-1)).is_none());
    t.add_row().unwrap();
    t.add_row().unwrap();
    assert!(t.row(PopulationId(-1)).is_none());
    assert!(t.row(PopulationId(i32::MIN)).is_none());
    assert!(t.row(PopulationId(2)).is_none());
    assert!(t.row(PopulationId(i32::MAX)).is_none());
    assert_eq!(t.row(PopulationId(1)).unwrap().id, PopulationId(1));
    assert!(t.metadata::<u32>(PopulationId(-1)).is_none());
    assert!(t.metadata::<u32>(PopulationId(7)).is_none());
}

#[test]
fn iteration_is_in_id_order() {
    let mut t = OwnedPopulationTable::default();
    t.add_row().unwrap();
    t.add_row_with_raw_metadata(vec![9]).unwrap();
    t.add_row().unwrap();
    let rows = collect(&t);
    assert_eq!(rows.len(), 3);
    for (i, row) in rows.iter().enumerate() {
        assert_eq!(row.id, PopulationId(i as i32));
        assert_eq!(Some(row), t.row(PopulationId(i as i32)).as_ref());
    }
    assert_eq!(rows[1].metadata, Some(vec![9]));
    // a second cursor starts again from the first row
    assert_eq!(collect(&t).len(), 3);
    let view = t.as_table();
    assert_eq!(view.num_rows().0, 3);
    let mut it = view.iter();
    assert_eq!(it.next().unwrap().id, PopulationId(0));
}

#[test]
fn rows_compare_by_id_and_metadata() {
    let a = PopulationTableRow { id: PopulationId(1), metadata: Some(vec![1, 2]) };
    let b = PopulationTableRow { id: PopulationId(1), metadata: Some(vec![1, 2]) };
    let c = PopulationTableRow { id: PopulationId(1), metadata: Some(vec![1, 3]) };
    let d = PopulationTableRow { id: PopulationId(2), metadata: Some(vec![1, 2]) };
    let e = PopulationTableRow { id: PopulationId(1), metadata: None };
    assert_eq!(a, b);
    assert_ne!(a, c);
    assert_ne!(a, d);
    assert_ne!(a, e);
}

#[test]
fn clear_options_govern_the_schema() {
    let mut t = OwnedPopulationTable::default();
    assert!(t.metadata_schema().is_empty());
    t.set_metadata_schema(b"{}".to_vec());
    t.add_row().unwrap();
    t.clear(TableClearOptions::default()).unwrap();
    assert_eq!(t.metadata_schema(), b"{}".to_vec());
    t.clear(TableClearOptions::from(TableClearOptions::CLEAR_METADATA_SCHEMAS)).unwrap();
    assert!(t.metadata_schema().is_empty());
}
