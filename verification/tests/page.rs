use alarm_sheets::record::{AlarmBatch, AlarmRecord, Column, COLUMNS};
use alarm_sheets::sheet::{headings, page};

fn blank() -> AlarmRecord {
    AlarmRecord {
        alarm_name: None,
        severity: None,
        alarm_category: None,
        edgepoint_site_id: None,
        old_site_id: None,
        hardware: None,
        site_names: None,
        area: None,
        province: None,
        site_category: None,
        occurence_time: None,
    }
}

fn named(name: &str) -> AlarmRecord {
    let mut record = blank();
    record.alarm_name = Some(name.to_string());
    record
}

#[test]
fn columns_stand_in_the_order_of_the_attributes() {
    let columns = Column::all();
    assert_eq!(columns.len(), COLUMNS);
    assert_eq!(
        columns.to_vec(),
        vec![
            Column::AlarmName,
            Column::Severity,
            Column::AlarmCategory,
            Column::EdgepointSiteId,
            Column::OldSiteId,
            Column::Hardware,
            Column::SiteNames,
            Column::Area,
            Column::Province,
            Column::SiteCategory,
            Column::OccurenceTime,
        ]
    );
}

#[test]
fn upstream_names_of_the_columns() {
    let keys: Vec<&str> = Column::all().iter().map(|column| column.key()).collect();
    assert_eq!(
        keys,
        vec![
            "Alarmmappings.alias",
            "Messagesalert.name",
            "Alarmmappings.alarmtype",
            "Messagesalert.siteId",
            "Site.oldsiteid",
            "HardwareMappings.hardwarealias",
            "Site.sitename",
            "Region.regionname",
            "District.districtName",
            "TelenorInventoryNwd.criticality",
            "Messagesalert.ariseTime",
        ]
    );
}

#[test]
fn headings_are_the_labels_not_the_upstream_names() {
    assert_eq!(
        headings(),
        vec![
            "alarm_name",
            "severity",
            "alarm_category",
            "edgepoint_site_id",
            "old_site_id",
            "hardware",
            "site_names",
            "area",
            "province",
            "site_category",
            "occurence_time",
        ]
    );
    for column in Column::all() {
        assert_ne!(column.label(), column.key());
        assert!(!column.label().contains('.'));
    }
}

#[test]
fn row_has_a_cell_for_each_column_and_an_empty_one_for_a_missing_attribute() {
    let record = AlarmRecord {
        alarm_name: Some("PowerFail".to_string()),
        severity: Some("Critical".to_string()),
        alarm_category: None,
        edgepoint_site_id: Some("EP-9".to_string()),
        old_site_id: None,
        hardware: Some(String::new()),
        site_names: None,
        area: None,
        province: None,
        site_category: None,
        occurence_time: Some("2024-01-02 03:04:05".to_string()),
    };
    assert_eq!(
        record.row(),
        vec!["PowerFail", "Critical", "", "EP-9", "", "", "", "", "", "", "2024-01-02 03:04:05"]
    );
    assert_eq!(blank().row(), vec![""; 11]);
}

#[test]
fn page_of_an_empty_batch_has_no_row() {
    let rows = page(&AlarmBatch { records: vec![] });
    assert_eq!(rows, Vec::<Vec<String>>::new());
}

#[test]
fn page_has_the_headings_and_then_the_records_in_their_order() {
    let batch = AlarmBatch { records: vec![named("c"), named("a"), named("b"), named("a")] };
    let rows = page(&batch);
    assert_eq!(rows.len(), 5);
    assert_eq!(rows[0], headings());
    let first_cells: Vec<&str> = rows[1..].iter().map(|row| row[0].as_str()).collect();
    assert_eq!(first_cells, vec!["c", "a", "b", "a"]);
    for (row, record) in rows[1..].iter().zip(batch.records.iter()) {
        assert_eq!(row, &record.row());
    }
    for row in &rows {
        assert_eq!(row.len(), 11);
    }
}

#[test]
fn page_of_one_blank_record_has_a_row_of_empty_cells() {
    let rows = page(&AlarmBatch { records: vec![blank()] });
    assert_eq!(rows, vec![headings(), vec![String::new(); 11]]);
}
