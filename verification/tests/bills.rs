use inventory_ledger::amount::Amount;
use inventory_ledger::bill::{Bill, BillItem};
use inventory_ledger::db::init_db;
use inventory_ledger::error::ErrorKind;
use inventory_ledger::product::Product;
use rusqlite::types::Value;
use rusqlite::Connection;

fn store() -> Connection {
    let mut conn = Connection::open_in_memory().unwrap();
    init_db(&mut conn).unwrap();
    conn
}

fn amount(x: f64) -> Amount {
    Amount::new(Value::Real(x)).unwrap()
}

fn number(a: &Amount) -> f64 {
    f64::from_bits(a.bits())
}

fn item(name: &str, quantity: i32, price: f64) -> BillItem {
    BillItem { product_name: name.to_string(), quantity, price_per_item: amount(price) }
}

fn total_of(items: &[(&str, i32, f64)]) -> f64 {
    items.iter().map(|(_, q, p)| *q as f64 * *p).sum()
}

fn bill(conn: &mut Connection, items: &[(&str, i32, f64)]) -> i64 {
    let items = items.iter().map(|(n, q, p)| item(n, *q, *p)).collect();
    Bill::create(conn, items).unwrap()
}

#[test]
fn widget_and_gadget_make_17_49() {
    let mut conn = store();
    let items = [("Widget", 3, 2.50), ("Gadget", 1, 9.99)];
    // In doubles the sum lies one step above the decimal 17.49.
    assert_eq!(total_of(&items), 3.0 * 2.50 + 9.99);
    assert!((total_of(&items) - 17.49).abs() < 1e-12);
    assert_eq!(format!("{:.2}", total_of(&items)), "17.49");
    let id = bill(&mut conn, &items);
    let bills = Bill::list(&conn).unwrap();
    assert_eq!(bills.len(), 1);
    assert_eq!(bills[0].id as i64, id);
    assert_eq!(number(&bills[0].total), total_of(&items));
    assert_eq!(format!("{:.2}", number(&bills[0].total)), "17.49");
    assert_eq!(bills[0].items.len(), 2);
    assert_eq!(bills[0].items[0].product_name, "Widget");
    assert_eq!(bills[0].items[0].quantity, 3);
    assert_eq!(number(&bills[0].items[0].price_per_item), 2.50);
    assert_eq!(bills[0].items[1].product_name, "Gadget");
    assert_eq!(bills[0].items[1].quantity, 1);
    assert_eq!(number(&bills[0].items[1].price_per_item), 9.99);
}

#[test]
fn bill_date_is_assigned_by_the_store() {
    let mut conn = store();
    bill(&mut conn, &[("Widget", 1, 1.0)]);
    let bills = Bill::list(&conn).unwrap();
    let date: Vec<char> = bills[0].date.chars().collect();
    assert_eq!(date.len(), 19);
    assert_eq!(date[4], '-');
    assert_eq!(date[10], ' ');
    assert_eq!(date[13], ':');
}

#[test]
fn total_is_the_sum_in_doubles_in_the_order_of_the_items() {
    let mut conn = store();
    let items = [("a", 3, 0.1), ("b", 7, 0.7), ("c", 1, 1e-9)];
    let total = total_of(&items);
    bill(&mut conn, &items);
    let bills = Bill::list(&conn).unwrap();
    assert_eq!(bills[0].total.bits(), total.to_bits());
    assert_eq!(bills[0].total.bits(), ((0.0 + 3.0 * 0.1) + 7.0 * 0.7 + 1e-9_f64).to_bits());
}

#[test]
fn order_of_the_items_decides_the_rounding() {
    let mut conn = store();
    let one_way = [("a", 1, 1e16), ("b", 1, 1.0), ("c", 1, 1.0)];
    let other_way = [("b", 1, 1.0), ("c", 1, 1.0), ("a", 1, 1e16)];
    assert_ne!(total_of(&one_way), total_of(&other_way));
    bill(&mut conn, &one_way);
    bill(&mut conn, &other_way);
    let bills = Bill::list(&conn).unwrap();
    assert_eq!(bills[1].total.bits(), total_of(&one_way).to_bits());
    assert_eq!(bills[0].total.bits(), total_of(&other_way).to_bits());
    assert_eq!(number(&bills[1].total), 1e16);
    assert_eq!(number(&bills[0].total), 1.0000000000000002e16);
}

#[test]
fn totals_agree_with_doubles_on_many_values() {
    let mut conn = store();
    let prices = [0.0, 5e-324, 1e-310, 0.01, 0.1, 0.3, 1.0 / 3.0, 2.5, 9.99, 1234.5678, 1e15 + 0.3, 1e300];
    let quantities = [1, 2, 3, 7, 10, 99, 1000, i32::MAX];
    let mut expected = Vec::new();
    for (k, p) in prices.iter().enumerate() {
        let items: Vec<(&str, i32, f64)> =
            quantities.iter().enumerate().map(|(j, q)| ("x", *q, prices[(k + j) % prices.len()] * 0.5 + *p)).collect();
        if total_of(&items).is_finite() {
            expected.push(total_of(&items));
            bill(&mut conn, &items);
        }
    }
    assert!(expected.len() >= 10);
    let bills = Bill::list(&conn).unwrap();
    assert_eq!(bills.len(), expected.len());
    for (i, total) in expected.iter().rev().enumerate() {
        assert_eq!(bills[i].total.bits(), total.to_bits());
    }
}

#[test]
fn total_beyond_all_doubles_is_a_constraint_error() {
    let mut conn = store();
    let e = Bill::create(&mut conn, vec![item("a", 2, f64::MAX)]).unwrap_err();
    assert_eq!(e.kind, ErrorKind::Constraint);
    assert!(Bill::list(&conn).unwrap().is_empty());
}

#[test]
fn given_total_is_stored_as_given() {
    let mut conn = store();
    let id = Bill::create_with_total(&mut conn, vec![item("a", 3, 0.1)], amount(0.25)).unwrap();
    let bills = Bill::list(&conn).unwrap();
    assert_eq!(bills[0].id as i64, id);
    assert_eq!(bills[0].total.bits(), 0.25_f64.to_bits());
    assert_eq!(bills[0].items.len(), 1);
    let id = Bill::create_with_total(&mut conn, Vec::new(), amount(-0.0)).unwrap();
    let bills = Bill::list(&conn).unwrap();
    assert_eq!(bills[0].id as i64, id);
    assert_eq!(bills[0].total.bits(), 0);
}

#[test]
fn items_keep_their_order() {
    let mut conn = store();
    let items = [("z", 1, 1.0), ("a", 2, 2.0), ("m", 3, 3.0), ("a", 4, 4.0)];
    let id = bill(&mut conn, &items);
    let got = Bill::get_items(&conn, id).unwrap();
    assert_eq!(got.len(), 4);
    for (i, (n, q, p)) in items.iter().enumerate() {
        assert_eq!(got[i].product_name, *n);
        assert_eq!(got[i].quantity, *q);
        assert_eq!(number(&got[i].price_per_item), *p);
    }
}

#[test]
fn empty_bill_has_total_zero_and_no_items() {
    let mut conn = store();
    assert_eq!(total_of(&[]), 0.0);
    let id = Bill::create(&mut conn, Vec::new()).unwrap();
    let bills = Bill::list(&conn).unwrap();
    assert_eq!(bills.len(), 1);
    assert_eq!(bills[0].id as i64, id);
    assert_eq!(number(&bills[0].total), 0.0);
    assert_eq!(bills[0].total.bits(), 0);
    assert!(bills[0].items.is_empty());
    assert!(Bill::get_items(&conn, id).unwrap().is_empty());
}

#[test]
fn bills_get_increasing_ids_and_list_newest_first() {
    let mut conn = store();
    let first = bill(&mut conn, &[("Widget", 1, 1.0)]);
    let second = bill(&mut conn, &[("Gadget", 2, 2.0), ("Widget", 1, 1.0)]);
    let third = bill(&mut conn, &[]);
    assert_eq!(first, 1);
    assert!(first < second);
    assert!(second < third);
    let bills = Bill::list(&conn).unwrap();
    assert_eq!(bills.len(), 3);
    assert_eq!(bills[0].id as i64, third);
    assert_eq!(bills[1].id as i64, second);
    assert_eq!(bills[2].id as i64, first);
    assert_eq!(bills[0].items.len(), 0);
    assert_eq!(bills[1].items.len(), 2);
    assert_eq!(bills[1].items[0].product_name, "Gadget");
    assert_eq!(bills[2].items.len(), 1);
    assert_eq!(bills[2].items[0].product_name, "Widget");
    assert_eq!(number(&bills[1].total), 5.0);
}

#[test]
fn items_of_one_bill_never_show_under_another() {
    let mut conn = store();
    let first = bill(&mut conn, &[("a", 1, 1.0), ("b", 1, 1.0)]);
    let second = bill(&mut conn, &[("c", 1, 1.0)]);
    let a = Bill::get_items(&conn, first).unwrap();
    let b = Bill::get_items(&conn, second).unwrap();
    assert_eq!(a.len(), 2);
    assert_eq!(b.len(), 1);
    assert_eq!(b[0].product_name, "c");
    assert!(Bill::get_items(&conn, 99).unwrap().is_empty());
}

#[test]
fn bill_lines_outlive_the_product() {
    let mut conn = store();
    Product::create(&mut conn, "Widget".to_string(), amount(2.5), 3).unwrap();
    let id = bill(&mut conn, &[("Widget", 3, 2.5)]);
    Product::update(&mut conn, 1, "Renamed".to_string(), amount(100.0), 0).unwrap();
    Product::delete(&mut conn, 1).unwrap();
    let got = Bill::get_items(&conn, id).unwrap();
    assert_eq!(got[0].product_name, "Widget");
    assert_eq!(number(&got[0].price_per_item), 2.5);
    assert_eq!(number(&Bill::list(&conn).unwrap()[0].total), 7.5);
}

#[test]
fn failed_item_write_leaves_no_bill_behind() {
    let mut conn = store();
    bill(&mut conn, &[("Widget", 1, 1.0)]);
    conn.execute_batch(
        "CREATE TRIGGER stop BEFORE INSERT ON bill_items WHEN NEW.product_name = 'bad'
         BEGIN SELECT RAISE(ABORT, 'stopped'); END;",
    )
    .unwrap();
    let items = vec![item("good", 1, 1.0), item("bad", 1, 1.0), item("late", 1, 1.0)];
    let e = Bill::create(&mut conn, items).unwrap_err();
    assert_eq!(e.kind, ErrorKind::TransactionFailure);
    assert!(conn.is_autocommit());
    let bills = Bill::list(&conn).unwrap();
    assert_eq!(bills.len(), 1);
    assert_eq!(bills[0].items.len(), 1);
    let rows: i64 = conn.query_row("SELECT COUNT(*) FROM bill_items", (), |r| r.get(0)).unwrap();
    assert_eq!(rows, 1);
}

#[test]
fn bill_inside_an_open_transaction_is_refused() {
    let mut conn = store();
    conn.execute_batch("BEGIN").unwrap();
    let e = Bill::create(&mut conn, vec![item("a", 1, 1.0)]).unwrap_err();
    assert_eq!(e.kind, ErrorKind::TransactionFailure);
    conn.execute_batch("COMMIT").unwrap();
    assert!(Bill::list(&conn).unwrap().is_empty());
}

#[test]
fn quantity_of_zero_is_a_constraint_error() {
    let mut conn = store();
    let e = Bill::create(&mut conn, vec![item("a", 1, 1.0), item("b", 0, 1.0)]).unwrap_err();
    assert_eq!(e.kind, ErrorKind::Constraint);
    let e = Bill::create(&mut conn, vec![item("a", -2, 1.0)]).unwrap_err();
    assert_eq!(e.kind, ErrorKind::Constraint);
    let e = Bill::create_with_total(&mut conn, vec![item("a", 0, 1.0)], amount(0.0)).unwrap_err();
    assert_eq!(e.kind, ErrorKind::Constraint);
    assert!(Bill::list(&conn).unwrap().is_empty());
}

#[test]
fn negative_amounts_on_a_bill_are_a_constraint_error() {
    let mut conn = store();
    let e = Bill::create(&mut conn, vec![item("a", 1, -1.0)]).unwrap_err();
    assert_eq!(e.kind, ErrorKind::Constraint);
    let e = Bill::create(&mut conn, vec![item("a", 1, f64::NAN)]).unwrap_err();
    assert_eq!(e.kind, ErrorKind::Constraint);
    let e = Bill::create_with_total(&mut conn, vec![item("a", 1, 1.0)], amount(-1.0)).unwrap_err();
    assert_eq!(e.kind, ErrorKind::Constraint);
    let e = Bill::create_with_total(&mut conn, vec![item("a", 1, 1.0)], amount(f64::NAN)).unwrap_err();
    assert_eq!(e.kind, ErrorKind::Constraint);
    assert!(Bill::list(&conn).unwrap().is_empty());
}

#[test]
fn bills_on_a_store_without_relations_fail() {
    let mut conn = Connection::open_in_memory().unwrap();
    let e = Bill::create(&mut conn, vec![item("a", 1, 1.0)]).unwrap_err();
    assert_eq!(e.kind, ErrorKind::TransactionFailure);
    assert!(conn.is_autocommit());
    let e = Bill::list(&conn).unwrap_err();
    assert_eq!(e.kind, ErrorKind::StorageUnavailable);
    let e = Bill::get_items(&conn, 1).unwrap_err();
    assert_eq!(e.kind, ErrorKind::StorageUnavailable);
}

#[test]
fn total_is_made_by_the_engine_line_by_line() {
    let conn = Connection::open_in_memory().unwrap();
    let items = vec![item("a", 1, 0.1), item("b", 1, 0.2), item("c", 1, 0.3)];
    let total = Bill::total(&conn, &items).unwrap();
    assert_eq!(number(&total), 0.6000000000000001);
    assert_eq!(total.bits(), ((0.1_f64 + 0.2) + 0.3).to_bits());
    let items = vec![item("Widget", 3, 2.5), item("Gadget", 2, 0.25)];
    assert_eq!(number(&Bill::total(&conn, &items).unwrap()), 8.0);
    assert_eq!(Bill::total(&conn, &Vec::new()).unwrap().bits(), 0);
    let items = vec![item("a", 2, f64::MAX)];
    assert_eq!(Bill::total(&conn, &items).unwrap().bits(), f64::INFINITY.to_bits());
    let items = vec![item("a", 1, f64::INFINITY), item("b", 1, f64::NEG_INFINITY)];
    let e = Bill::total(&conn, &items).unwrap_err();
    assert_eq!(e.kind, ErrorKind::TransactionFailure);
}

#[test]
fn header_gets_the_items_that_were_read_for_it() {
    let mut bill = Bill { id: 4, date: "2024-01-01 00:00:00".to_string(), total: amount(7.5), items: Vec::new() };
    bill.attach(vec![item("Widget", 3, 2.5), item("Gadget", 1, 0.0)]);
    assert_eq!(bill.id, 4);
    assert_eq!(bill.date, "2024-01-01 00:00:00");
    assert_eq!(number(&bill.total), 7.5);
    assert_eq!(bill.items.len(), 2);
    assert_eq!(bill.items[0].product_name, "Widget");
    assert_eq!(bill.items[1].product_name, "Gadget");
    bill.attach(Vec::new());
    assert!(bill.items.is_empty());
}

#[test]
fn bill_listing_out_of_order_is_a_failure() {
    let header = |id: i32| Bill { id, date: String::new(), total: amount(0.0), items: Vec::new() };
    let ok = Bill::listing(vec![header(9), header(4), header(1)]).unwrap();
    assert_eq!(ok.len(), 3);
    assert_eq!(ok[0].id, 9);
    assert!(Bill::listing(Vec::new()).unwrap().is_empty());
    let e = Bill::listing(vec![header(1), header(2)]).unwrap_err();
    assert_eq!(e.kind, ErrorKind::StorageUnavailable);
    let e = Bill::listing(vec![header(2), header(2)]).unwrap_err();
    assert_eq!(e.kind, ErrorKind::StorageUnavailable);
}

#[test]
fn failed_read_of_items_gives_no_partial_list() {
    let mut conn = store();
    bill(&mut conn, &[("a", 1, 1.0)]);
    bill(&mut conn, &[("b", 1, 1.0)]);
    conn.execute_batch("ALTER TABLE bill_items RENAME TO elsewhere;").unwrap();
    assert!(Bill::list(&conn).is_err());
    conn.execute_batch("ALTER TABLE elsewhere RENAME TO bill_items;").unwrap();
    assert_eq!(Bill::list(&conn).unwrap().len(), 2);
}
