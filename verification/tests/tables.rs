use colabrodo::client_table::{BasicTable as ClientTable, TableDataStorage};
use colabrodo::server_table::{BasicTable, TableTrait};
use colabrodo::table::{Selection, TableColumnInfo, TableInitData};
use colabrodo::value::CborValue;
use colabrodo::value_tools::{from_cbor, CBORTransform};

fn header() -> Vec<TableColumnInfo> {
    vec![
        TableColumnInfo { name: "a".to_string(), type_: "REAL".to_string() },
        TableColumnInfo { name: "b".to_string(), type_: "TEXT".to_string() },
    ]
}

fn row(i: i128, s: &str) -> Vec<CborValue> {
    vec![CborValue::Integer(i), CborValue::Text(s.to_string())]
}

#[test]
fn server_table_insert_skips_bad_rows() {
    let mut t = BasicTable::new(header(), vec![row(1, "x"), vec![CborValue::Integer(9)], row(2, "y")]);
    let init = t.get_init_data();
    assert_eq!(init.keys, vec![0, 1]);
    assert_eq!(init.data, vec![row(1, "x"), row(2, "y")]);

    let (keys, rows) = t.insert_data(vec![vec![], row(3, "z")]).unwrap();
    assert_eq!(keys, vec![2]);
    assert_eq!(rows, vec![row(3, "z")]);

    assert!(t.insert_data(vec![vec![CborValue::Null]]).is_none());
    assert!(t.insert_data(vec![]).is_none());
}

#[test]
fn server_table_update_and_delete() {
    let mut t = BasicTable::new(header(), vec![row(1, "x"), row(2, "y")]);
    assert!(t.update_data(vec![0], vec![]).is_none());

    let (keys, rows) = t.update_data(vec![1, 7, 0], vec![row(20, "yy"), row(70, "no"), row(10, "xx")]).unwrap();
    assert_eq!(keys, vec![1, 0]);
    assert_eq!(rows, vec![row(20, "yy"), row(10, "xx")]);
    assert_eq!(t.get_init_data().data, vec![row(10, "xx"), row(20, "yy")]);

    let removed = t.delete_data(vec![5, 0, 0]).unwrap();
    assert_eq!(removed, vec![0]);
    assert_eq!(t.get_init_data().keys, vec![1]);
}

#[test]
fn server_table_clear_resets_keys() {
    let mut t = BasicTable::new(header(), vec![row(1, "x"), row(2, "y")]);
    let sel = Selection { name: "s".to_string(), rows: Some(vec![0]), row_ranges: None };
    let echoed = t.update_selection(sel).unwrap();
    assert_eq!(echoed.name, "s");

    let init = t.clear().unwrap();
    assert_eq!(init.columns.len(), 2);
    assert!(init.keys.is_empty());
    assert!(init.data.is_empty());
    assert!(init.selections.is_none());

    let (keys, _) = t.insert_data(vec![row(5, "q")]).unwrap();
    assert_eq!(keys, vec![0]);
}

#[test]
fn client_table_mirrors_server_broadcasts() {
    let mut server = BasicTable::new(header(), vec![row(1, "x"), row(2, "y")]);
    let mut client = ClientTable::default();
    client.on_init_data(server.get_init_data());

    let (k, r) = server.insert_data(vec![row(3, "z")]).unwrap();
    client.update_data(k, r);
    let (k, r) = server.update_data(vec![0, 9], vec![row(11, "xx"), row(99, "no")]).unwrap();
    client.update_data(k, r);
    let removed = server.delete_data(vec![1, 4]).unwrap();
    client.delete_data(removed);

    let server_rows: Vec<(i64, Vec<CborValue>)> = {
        let init = server.get_init_data();
        init.keys.into_iter().zip(init.data).collect()
    };
    let client_rows: Vec<(i64, Vec<CborValue>)> =
        client.current_data().iter().map(|(k, v)| (*k, v.clone())).collect();
    assert_eq!(server_rows, client_rows);
    assert_eq!(client.header().len(), 2);
}

#[test]
fn client_selection_updates() {
    let mut client = ClientTable::default();
    client.update_selection(Selection { name: "s".to_string(), rows: Some(vec![1]), row_ranges: None });
    client.update_selection(Selection { name: "t".to_string(), rows: Some(vec![1]), row_ranges: Some(vec![0, 4]) });
    client.on_init_data(TableInitData {
        columns: header(),
        keys: vec![3, 4, 5],
        data: vec![row(3, "c"), row(4, "d")],
        selections: None,
    });
    assert_eq!(client.current_data().len(), 2);
    // empty row ranges remove the selection, even when rows are given
    client.update_selection(Selection { name: "t".to_string(), rows: Some(vec![1]), row_ranges: Some(vec![]) });
    // neither rows nor ranges removes it too
    client.update_selection(Selection { name: "s".to_string(), rows: None, row_ranges: None });
    client.clear();
    assert!(client.current_data().is_empty());
    assert_eq!(client.header().len(), 2);
}

#[test]
fn table_init_data_wire_form() {
    let init = TableInitData {
        columns: header(),
        keys: vec![1],
        data: vec![row(1, "x")],
        selections: Some(vec![Selection { name: "s".to_string(), rows: None, row_ranges: Some(vec![0, 1]) }]),
    };
    let packed = init.to_cbor();
    let back: TableInitData = from_cbor(packed).unwrap();
    assert_eq!(back.keys, vec![1]);
    assert_eq!(back.data, vec![row(1, "x")]);
    assert_eq!(back.columns[1].type_, "TEXT");
    let sels = back.selections.unwrap();
    assert_eq!(sels[0].row_ranges, Some(vec![0, 1]));
    assert_eq!(sels[0].rows, None);
}
