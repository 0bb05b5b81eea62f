use inventory_ledger::amount::Amount;
use inventory_ledger::db::init_db;
use inventory_ledger::error::ErrorKind;
use inventory_ledger::product::{DeletedProduct, Product};
use inventory_ledger::error::StoreError;
use rusqlite::types::Value;
use rusqlite::Connection;

fn store() -> Connection {
    let mut conn = Connection::open_in_memory().unwrap();
    init_db(&mut conn).unwrap();
    conn
}

fn amount(x: f64) -> Amount {
    Amount::new(Value::Real(x)).unwrap()
}

fn number(a: &Amount) -> f64 {
    f64::from_bits(a.bits())
}

#[test]
fn created_products_come_back_in_order() {
    let mut conn = store();
    Product::create(&mut conn, "Widget".to_string(), amount(2.5), 3).unwrap();
    Product::create(&mut conn, "Gadget".to_string(), amount(9.99), 1).unwrap();
    Product::create(&mut conn, "Widget".to_string(), amount(0.0), 0).unwrap();
    let all = Product::get_all(&conn).unwrap();
    assert_eq!(all.len(), 3);
    assert_eq!(all[0].name, "Widget");
    assert_eq!(number(&all[0].price), 2.5);
    assert_eq!(all[0].quantity, 3);
    assert_eq!(all[1].name, "Gadget");
    assert_eq!(number(&all[1].price), 9.99);
    assert_eq!(all[1].quantity, 1);
    assert_eq!(all[2].name, "Widget");
    assert_eq!(number(&all[2].price), 0.0);
    assert_eq!(all[2].quantity, 0);
    assert_eq!(all[0].id, 1);
    assert!(all[0].id < all[1].id);
    assert!(all[1].id < all[2].id);
}

#[test]
fn empty_store_has_no_products() {
    let conn = store();
    assert!(Product::get_all(&conn).unwrap().is_empty());
    assert!(DeletedProduct::get_all(&conn).unwrap().is_empty());
    assert!(Product::get_by_id(&conn, 1).unwrap().is_none());
}

#[test]
fn identities_are_not_handed_out_again() {
    let mut conn = store();
    Product::create(&mut conn, "a".to_string(), amount(1.0), 1).unwrap();
    Product::create(&mut conn, "b".to_string(), amount(1.0), 1).unwrap();
    let last = Product::get_all(&conn).unwrap()[1].id;
    Product::delete(&mut conn, last).unwrap();
    Product::create(&mut conn, "c".to_string(), amount(1.0), 1).unwrap();
    let all = Product::get_all(&conn).unwrap();
    assert_eq!(all.len(), 2);
    assert_eq!(all[1].name, "c");
    assert!(all[1].id > last);
}

#[test]
fn delete_moves_the_product_to_the_archive() {
    let mut conn = store();
    Product::create(&mut conn, "Widget".to_string(), amount(2.5), 3).unwrap();
    Product::create(&mut conn, "Gadget".to_string(), amount(9.99), 1).unwrap();
    let id = Product::get_all(&conn).unwrap()[0].id;
    Product::delete_at(&mut conn, id, "2024-05-06 07:08:09").unwrap();
    assert!(Product::get_by_id(&conn, id).unwrap().is_none());
    let left = Product::get_all(&conn).unwrap();
    assert_eq!(left.len(), 1);
    assert_eq!(left[0].name, "Gadget");
    let archive = DeletedProduct::get_all(&conn).unwrap();
    assert_eq!(archive.len(), 1);
    assert_eq!(archive[0].id, id);
    assert_eq!(archive[0].name, "Widget");
    assert_eq!(number(&archive[0].price), 2.5);
    assert_eq!(archive[0].quantity, 3);
    assert_eq!(archive[0].deleted_at, "2024-05-06 07:08:09");
}

#[test]
fn delete_archives_the_product_as_last_updated() {
    let mut conn = store();
    Product::create(&mut conn, "Widget".to_string(), amount(2.5), 3).unwrap();
    let id = Product::get_all(&conn).unwrap()[0].id;
    Product::update(&mut conn, id, "Widget II".to_string(), amount(3.75), 8).unwrap();
    Product::delete(&mut conn, id).unwrap();
    let archive = DeletedProduct::get_all(&conn).unwrap();
    assert_eq!(archive.len(), 1);
    assert_eq!(archive[0].name, "Widget II");
    assert_eq!(number(&archive[0].price), 3.75);
    assert_eq!(archive[0].quantity, 8);
}

#[test]
fn delete_stamps_the_local_time() {
    let mut conn = store();
    Product::create(&mut conn, "Widget".to_string(), amount(2.5), 3).unwrap();
    Product::delete(&mut conn, 1).unwrap();
    let archive = DeletedProduct::get_all(&conn).unwrap();
    let at: Vec<char> = archive[0].deleted_at.chars().collect();
    assert_eq!(at.len(), 19);
    for (i, c) in at.iter().enumerate() {
        match i {
            4 | 7 => assert_eq!(*c, '-'),
            10 => assert_eq!(*c, ' '),
            13 | 16 => assert_eq!(*c, ':'),
            _ => assert!(c.is_ascii_digit()),
        }
    }
}

#[test]
fn delete_of_unknown_id_changes_nothing() {
    let mut conn = store();
    Product::create(&mut conn, "Widget".to_string(), amount(2.5), 3).unwrap();
    assert!(Product::delete(&mut conn, 42).is_ok());
    assert_eq!(Product::get_all(&conn).unwrap().len(), 1);
    assert!(DeletedProduct::get_all(&conn).unwrap().is_empty());
}

#[test]
fn update_of_unknown_id_changes_nothing() {
    let mut conn = store();
    Product::create(&mut conn, "Widget".to_string(), amount(2.5), 3).unwrap();
    assert!(Product::update(&mut conn, 42, "Other".to_string(), amount(1.0), 1).is_ok());
    let all = Product::get_all(&conn).unwrap();
    assert_eq!(all.len(), 1);
    assert_eq!(all[0].name, "Widget");
    assert_eq!(number(&all[0].price), 2.5);
    assert_eq!(all[0].quantity, 3);
}

#[test]
fn update_replaces_the_three_fields_of_one_product() {
    let mut conn = store();
    Product::create(&mut conn, "Widget".to_string(), amount(2.5), 3).unwrap();
    Product::create(&mut conn, "Gadget".to_string(), amount(9.99), 1).unwrap();
    Product::update(&mut conn, 2, "Gizmo".to_string(), amount(12.0), 7).unwrap();
    let all = Product::get_all(&conn).unwrap();
    assert_eq!(all.len(), 2);
    assert_eq!(all[0].id, 1);
    assert_eq!(all[0].name, "Widget");
    assert_eq!(number(&all[0].price), 2.5);
    assert_eq!(all[0].quantity, 3);
    assert_eq!(all[1].id, 2);
    assert_eq!(all[1].name, "Gizmo");
    assert_eq!(number(&all[1].price), 12.0);
    assert_eq!(all[1].quantity, 7);
}

#[test]
fn lookup_by_id() {
    let mut conn = store();
    Product::create(&mut conn, "Widget".to_string(), amount(2.5), 3).unwrap();
    Product::create(&mut conn, "Gadget".to_string(), amount(9.99), 1).unwrap();
    let p = Product::get_by_id(&conn, 2).unwrap().unwrap();
    assert_eq!(p.id, 2);
    assert_eq!(p.name, "Gadget");
    assert_eq!(number(&p.price), 9.99);
    assert_eq!(p.quantity, 1);
    assert!(Product::get_by_id(&conn, 3).unwrap().is_none());
}

#[test]
fn lookup_by_id_and_name_wants_both_exactly() {
    let mut conn = store();
    Product::create(&mut conn, "Widget".to_string(), amount(2.5), 3).unwrap();
    Product::create(&mut conn, "Gadget".to_string(), amount(9.99), 1).unwrap();
    let p = Product::get_by_id_and_name(&conn, 1, "Widget").unwrap().unwrap();
    assert_eq!(p.id, 1);
    assert_eq!(p.name, "Widget");
    assert_eq!(number(&p.price), 2.5);
    assert_eq!(p.quantity, 3);
    assert!(Product::get_by_id_and_name(&conn, 1, "widget").unwrap().is_none());
    assert!(Product::get_by_id_and_name(&conn, 1, "Widget ").unwrap().is_none());
    assert!(Product::get_by_id_and_name(&conn, 1, "Gadget").unwrap().is_none());
    assert!(Product::get_by_id_and_name(&conn, 2, "Widget").unwrap().is_none());
    assert!(Product::get_by_id_and_name(&conn, 3, "Widget").unwrap().is_none());
}

#[test]
fn negative_quantity_is_a_constraint_error() {
    let mut conn = store();
    let e = Product::create(&mut conn, "Widget".to_string(), amount(2.5), -1).unwrap_err();
    assert_eq!(e.kind, ErrorKind::Constraint);
    assert!(Product::get_all(&conn).unwrap().is_empty());
}

#[test]
fn negative_price_is_a_constraint_error() {
    let mut conn = store();
    let e = Product::create(&mut conn, "Widget".to_string(), amount(-0.01), 1).unwrap_err();
    assert_eq!(e.kind, ErrorKind::Constraint);
    assert!(Product::get_all(&conn).unwrap().is_empty());
}

#[test]
fn price_that_is_no_number_is_a_constraint_error() {
    let mut conn = store();
    let e = Product::create(&mut conn, "Widget".to_string(), amount(f64::NAN), 1).unwrap_err();
    assert_eq!(e.kind, ErrorKind::Constraint);
    let e = Product::create(&mut conn, "Widget".to_string(), amount(f64::INFINITY), 1).unwrap_err();
    assert_eq!(e.kind, ErrorKind::Constraint);
    assert!(Product::get_all(&conn).unwrap().is_empty());
}

#[test]
fn update_with_values_out_of_range_is_a_constraint_error() {
    let mut conn = store();
    Product::create(&mut conn, "Widget".to_string(), amount(2.5), 3).unwrap();
    let e = Product::update(&mut conn, 1, "Widget".to_string(), amount(2.5), -3).unwrap_err();
    assert_eq!(e.kind, ErrorKind::Constraint);
    let e = Product::update(&mut conn, 1, "Widget".to_string(), amount(-2.5), 3).unwrap_err();
    assert_eq!(e.kind, ErrorKind::Constraint);
    let all = Product::get_all(&conn).unwrap();
    assert_eq!(number(&all[0].price), 2.5);
    assert_eq!(all[0].quantity, 3);
}

#[test]
fn zero_price_and_zero_quantity_are_in_order() {
    let mut conn = store();
    Product::create(&mut conn, "Free".to_string(), amount(0.0), 0).unwrap();
    let all = Product::get_all(&conn).unwrap();
    assert_eq!(all[0].price.bits(), 0);
    assert_eq!(all[0].quantity, 0);
}

#[test]
fn negative_zero_comes_back_as_zero() {
    let mut conn = store();
    Product::create(&mut conn, "Free".to_string(), amount(-0.0), 1).unwrap();
    let all = Product::get_all(&conn).unwrap();
    assert_eq!(all[0].price.bits(), 0);
    Product::delete(&mut conn, all[0].id).unwrap();
    let archive = DeletedProduct::get_all(&conn).unwrap();
    assert_eq!(archive[0].price.bits(), 0);
}

#[test]
fn prices_come_back_bit_for_bit() {
    let mut conn = store();
    let prices = [0.1, 3.0, 1e18, 1e300, 5e-324, f64::MAX, 0.30000000000000004, 17.49];
    for p in prices {
        Product::create(&mut conn, "x".to_string(), amount(p), 1).unwrap();
    }
    let all = Product::get_all(&conn).unwrap();
    assert_eq!(all.len(), prices.len());
    for (i, p) in prices.iter().enumerate() {
        assert_eq!(all[i].price.bits(), p.to_bits());
    }
    for p in &all {
        Product::delete(&mut conn, p.id).unwrap();
    }
    let archive = DeletedProduct::get_all(&conn).unwrap();
    assert_eq!(archive.len(), prices.len());
    for a in &archive {
        assert_eq!(a.price.bits(), prices[(a.id - 1) as usize].to_bits());
    }
}

#[test]
fn archive_lists_the_newest_removal_first() {
    let mut conn = store();
    for name in ["a", "b", "c"] {
        Product::create(&mut conn, name.to_string(), amount(1.0), 1).unwrap();
    }
    Product::delete_at(&mut conn, 2, "2024-01-02 00:00:00").unwrap();
    Product::delete_at(&mut conn, 1, "2024-03-01 10:00:00").unwrap();
    Product::delete_at(&mut conn, 3, "2023-12-31 23:59:59").unwrap();
    let archive = DeletedProduct::get_all(&conn).unwrap();
    let names: Vec<&str> = archive.iter().map(|d| d.name.as_str()).collect();
    assert_eq!(names, vec!["a", "b", "c"]);
    assert_eq!(archive[0].deleted_at, "2024-03-01 10:00:00");
    assert_eq!(archive[2].deleted_at, "2023-12-31 23:59:59");
}

#[test]
fn failed_delete_leaves_the_product_live_and_unarchived() {
    let mut conn = store();
    Product::create(&mut conn, "Widget".to_string(), amount(2.5), 3).unwrap();
    Product::create(&mut conn, "Gadget".to_string(), amount(9.99), 1).unwrap();
    // The archive row is written first; the removal that follows it is made to fail.
    conn.execute_batch(
        "CREATE TRIGGER stop BEFORE DELETE ON products BEGIN SELECT RAISE(ABORT, 'stopped'); END;",
    )
    .unwrap();
    let e = Product::delete_at(&mut conn, 1, "2024-05-06 07:08:09").unwrap_err();
    assert_eq!(e.kind, ErrorKind::TransactionFailure);
    assert!(conn.is_autocommit());
    let all = Product::get_all(&conn).unwrap();
    assert_eq!(all.len(), 2);
    let p = Product::get_by_id(&conn, 1).unwrap().unwrap();
    assert_eq!(p.name, "Widget");
    assert_eq!(number(&p.price), 2.5);
    assert_eq!(p.quantity, 3);
    assert!(DeletedProduct::get_all(&conn).unwrap().is_empty());
    conn.execute_batch("DROP TRIGGER stop;").unwrap();
    Product::delete_at(&mut conn, 1, "2024-05-06 07:08:10").unwrap();
    assert_eq!(DeletedProduct::get_all(&conn).unwrap().len(), 1);
    assert!(Product::get_by_id(&conn, 1).unwrap().is_none());
}

#[test]
fn failed_archive_write_leaves_the_product_live() {
    let mut conn = store();
    Product::create(&mut conn, "Widget".to_string(), amount(2.5), 3).unwrap();
    conn.execute_batch(
        "CREATE TRIGGER stop BEFORE INSERT ON deleted_products BEGIN SELECT RAISE(ABORT, 'stopped'); END;",
    )
    .unwrap();
    let e = Product::delete(&mut conn, 1).unwrap_err();
    assert_eq!(e.kind, ErrorKind::TransactionFailure);
    assert!(conn.is_autocommit());
    assert_eq!(Product::get_all(&conn).unwrap().len(), 1);
    assert!(DeletedProduct::get_all(&conn).unwrap().is_empty());
}

#[test]
fn delete_inside_an_open_transaction_is_refused() {
    let mut conn = store();
    Product::create(&mut conn, "Widget".to_string(), amount(2.5), 3).unwrap();
    conn.execute_batch("BEGIN").unwrap();
    let e = Product::delete(&mut conn, 1).unwrap_err();
    assert_eq!(e.kind, ErrorKind::TransactionFailure);
    assert!(!conn.is_autocommit());
    conn.execute_batch("COMMIT").unwrap();
    assert_eq!(Product::get_all(&conn).unwrap().len(), 1);
    assert!(DeletedProduct::get_all(&conn).unwrap().is_empty());
}

#[test]
fn store_without_relations_is_unavailable() {
    let mut conn = Connection::open_in_memory().unwrap();
    let e = Product::create(&mut conn, "Widget".to_string(), amount(2.5), 3).unwrap_err();
    assert_eq!(e.kind, ErrorKind::StorageUnavailable);
    assert!(!e.message.is_empty());
    assert_eq!(e.to_text(), e.message);
    let e = Product::get_all(&conn).unwrap_err();
    assert_eq!(e.kind, ErrorKind::StorageUnavailable);
    let e = Product::delete(&mut conn, 1).unwrap_err();
    assert_eq!(e.kind, ErrorKind::TransactionFailure);
    assert!(conn.is_autocommit());
}

#[test]
fn row_of_the_wrong_type_is_a_constraint_error() {
    let mut conn = store();
    conn.execute("INSERT INTO products (name, price, quantity) VALUES ('odd', 'dear', 1)", ()).unwrap();
    let e = Product::get_all(&conn).unwrap_err();
    assert_eq!(e.kind, ErrorKind::Constraint);
    let e = Product::delete(&mut conn, 1).unwrap_err();
    assert_eq!(e.kind, ErrorKind::TransactionFailure);
    assert!(conn.is_autocommit());
}

#[test]
fn names_are_kept_letter_for_letter() {
    let mut conn = store();
    let names = ["", "Zwölf Boxkämpfer", "a'b\"c;--", "línea\nnueva", "名前", "nul\0inside"];
    for n in names {
        Product::create(&mut conn, n.to_string(), amount(1.0), 1).unwrap();
    }
    let all = Product::get_all(&conn).unwrap();
    for (i, n) in names.iter().enumerate() {
        assert_eq!(all[i].name, *n);
        assert!(Product::get_by_id_and_name(&conn, all[i].id, n).unwrap().is_some());
    }
}

#[test]
fn removals_of_the_same_second_list_the_later_one_first() {
    let mut conn = store();
    for name in ["a", "b", "c", "d"] {
        Product::create(&mut conn, name.to_string(), amount(1.0), 1).unwrap();
    }
    Product::delete_at(&mut conn, 3, "2024-01-02 00:00:00").unwrap();
    Product::delete_at(&mut conn, 1, "2024-01-02 00:00:00").unwrap();
    Product::delete_at(&mut conn, 4, "2024-01-01 00:00:00").unwrap();
    Product::delete_at(&mut conn, 2, "2024-01-02 00:00:00").unwrap();
    let archive = DeletedProduct::get_all(&conn).unwrap();
    let names: Vec<&str> = archive.iter().map(|d| d.name.as_str()).collect();
    assert_eq!(names, vec!["b", "a", "c", "d"]);
    assert!(archive[0].serial > archive[1].serial);
    assert!(archive[1].serial > archive[2].serial);
}

#[test]
fn removal_under_a_time_of_another_shape_is_a_constraint_error() {
    let mut conn = store();
    Product::create(&mut conn, "Widget".to_string(), amount(2.5), 3).unwrap();
    for at in ["", "now", "2024-05-06", "2024-05-06T07:08:09", "2024-05-06 07:08:0", "2024-05-06 07:08:090", "2024/05/06 07:08:09", "２０２４-05-06 07:08:09"] {
        let e = Product::delete_at(&mut conn, 1, at).unwrap_err();
        assert_eq!(e.kind, ErrorKind::Constraint);
    }
    assert_eq!(Product::get_all(&conn).unwrap().len(), 1);
    assert!(DeletedProduct::get_all(&conn).unwrap().is_empty());
}

#[test]
fn removal_time_is_what_the_clock_gave_if_it_is_shaped() {
    assert_eq!(Product::removal_time(Some("2024-05-06 07:08:09".to_string())), Some("2024-05-06 07:08:09".to_string()));
    assert_eq!(Product::removal_time(Some("+12024-05-06 07:08:09".to_string())), None);
    assert_eq!(Product::removal_time(Some(String::new())), None);
    assert_eq!(Product::removal_time(None), None);
}

#[test]
fn lookup_by_name_is_exact_whatever_the_column_says() {
    let mut conn = Connection::open_in_memory().unwrap();
    conn.execute_batch(
        "CREATE TABLE products (id INTEGER PRIMARY KEY AUTOINCREMENT, name TEXT NOT NULL COLLATE NOCASE,
         price REAL NOT NULL, quantity INTEGER NOT NULL DEFAULT 0);",
    )
    .unwrap();
    init_db(&mut conn).unwrap();
    Product::create(&mut conn, "Widget".to_string(), amount(2.5), 3).unwrap();
    assert!(Product::get_by_id_and_name(&conn, 1, "Widget").unwrap().is_some());
    assert!(Product::get_by_id_and_name(&conn, 1, "widget").unwrap().is_none());
}

fn removed(serial: i64, at: &str) -> DeletedProduct {
    DeletedProduct { serial, id: 1, name: "x".to_string(), price: amount(1.0), quantity: 1, deleted_at: at.to_string() }
}

fn on_hand(id: i32) -> Product {
    Product { id, name: "x".to_string(), price: amount(1.0), quantity: 1 }
}

#[test]
fn write_that_changed_no_row_has_succeeded() {
    assert!(Product::written(Ok(0)).is_ok());
    assert!(Product::written(Ok(1)).is_ok());
    let e = Product::written(Err(StoreError::constraint("no"))).unwrap_err();
    assert_eq!(e.kind, ErrorKind::Constraint);
    assert_eq!(e.message, "no");
}

#[test]
fn later_removal_precedes_the_earlier() {
    assert!(removed(1, "2024-01-02 00:00:00").precedes(&removed(2, "2024-01-01 23:59:59")));
    assert!(!removed(2, "2024-01-01 23:59:59").precedes(&removed(1, "2024-01-02 00:00:00")));
    assert!(removed(5, "2024-01-02 00:00:00").precedes(&removed(4, "2024-01-02 00:00:00")));
    assert!(!removed(4, "2024-01-02 00:00:00").precedes(&removed(5, "2024-01-02 00:00:00")));
    assert!(!removed(4, "2024-01-02 00:00:00").precedes(&removed(4, "2024-01-02 00:00:00")));
    assert!(removed(1, "b").precedes(&removed(9, "a")));
    assert!(removed(1, "ab").precedes(&removed(9, "a")));
    assert!(removed(1, "\u{100}").precedes(&removed(9, "a")));
    assert!(!removed(1, "a").precedes(&removed(9, "\u{100}")));
}

#[test]
fn archive_listing_out_of_order_is_a_failure() {
    let ok = DeletedProduct::listing(vec![removed(3, "c"), removed(2, "b"), removed(1, "b"), removed(7, "a")]).unwrap();
    assert_eq!(ok.len(), 4);
    assert_eq!(ok[0].serial, 3);
    assert_eq!(ok[3].serial, 7);
    assert!(DeletedProduct::listing(Vec::new()).unwrap().is_empty());
    assert_eq!(DeletedProduct::listing(vec![removed(1, "a")]).unwrap().len(), 1);
    let e = DeletedProduct::listing(vec![removed(3, "c"), removed(1, "b"), removed(2, "b")]).unwrap_err();
    assert_eq!(e.kind, ErrorKind::StorageUnavailable);
    let e = DeletedProduct::listing(vec![removed(3, "a"), removed(2, "b")]).unwrap_err();
    assert_eq!(e.kind, ErrorKind::StorageUnavailable);
}

#[test]
fn archive_of_a_store_in_another_encoding_is_not_misread() {
    let mut conn = Connection::open_in_memory().unwrap();
    conn.execute_batch("PRAGMA encoding = 'UTF-16le';").unwrap();
    init_db(&mut conn).unwrap();
    conn.execute_batch(
        "INSERT INTO deleted_products (id, name, price, quantity, deleted_at) VALUES (1, 'x', 1.0, 1, 'a');
         INSERT INTO deleted_products (id, name, price, quantity, deleted_at) VALUES (2, 'y', 1.0, 1, '\u{100}');",
    )
    .unwrap();
    // Byte by byte in this encoding the second row sorts below the first.
    let e = DeletedProduct::get_all(&conn).unwrap_err();
    assert_eq!(e.kind, ErrorKind::StorageUnavailable);
    // Times in the shape that the library writes come in the same order in every encoding.
    conn.execute_batch("DELETE FROM deleted_products;").unwrap();
    Product::create(&mut conn, "a".to_string(), amount(1.0), 1).unwrap();
    Product::create(&mut conn, "b".to_string(), amount(1.0), 1).unwrap();
    Product::delete_at(&mut conn, 1, "2024-01-01 00:00:00").unwrap();
    Product::delete_at(&mut conn, 2, "2024-01-02 00:00:00").unwrap();
    let archive = DeletedProduct::get_all(&conn).unwrap();
    assert_eq!(archive[0].name, "b");
    assert_eq!(archive[1].name, "a");
}

#[test]
fn product_listing_out_of_order_is_a_failure() {
    let ok = Product::listing(vec![on_hand(1), on_hand(2), on_hand(5)]).unwrap();
    assert_eq!(ok.len(), 3);
    assert_eq!(ok[2].id, 5);
    assert!(Product::listing(Vec::new()).unwrap().is_empty());
    let e = Product::listing(vec![on_hand(1), on_hand(3), on_hand(2)]).unwrap_err();
    assert_eq!(e.kind, ErrorKind::StorageUnavailable);
    let e = Product::listing(vec![on_hand(1), on_hand(1)]).unwrap_err();
    assert_eq!(e.kind, ErrorKind::StorageUnavailable);
}

#[test]
fn local_time_of_a_reading_is_shaped() {
    assert_eq!(Product::local_time(None), None);
    let text = Product::local_time(Some(1_700_000_000)).unwrap();
    assert!(text.starts_with("2023-11-1"));
    assert_eq!(Product::removal_time(Some(text.clone())), Some(text));
    assert_eq!(Product::local_time(Some(u64::MAX)), None);
    // Beyond the year 9999 the text has another shape and is no removal time.
    let far = Product::local_time(Some(400_000_000_000));
    assert_eq!(Product::removal_time(far), None);
}
