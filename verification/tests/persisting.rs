use listing_crawler::persist::{InsertRow, PersistRun};
use listing_crawler::product::Product;
use listing_crawler::schedule::CalendarDate;

fn product(name: &str, old_price: Option<&str>) -> Product {
    Product::new(
        name.to_string(),
        "$2.00".to_string(),
        old_price.map(|p| p.to_string()),
        format!("https://example.com/dp/{}", name),
    )
}

fn day() -> CalendarDate {
    CalendarDate::new(2024, 3, 1).unwrap()
}

#[test]
fn a_failed_second_insert_leaves_one_row_and_stops() {
    let batch = vec![product("a", None), product("b", Some("$3.00")), product("c", None)];
    let mut run = PersistRun::new(batch);
    let first = run.next_row(day()).unwrap();
    assert_eq!(first.name, "a");
    run.record(true);
    let second = run.next_row(day()).unwrap();
    assert_eq!(second.name, "b");
    run.record(false);
    assert_eq!(run.next_row(day()), None);
    assert_eq!(run.committed(), 1);
    assert_eq!(run.attempted(), 2);
    assert!(run.has_failed());
    assert_eq!(run.len(), 3);
}

#[test]
fn every_row_is_written_when_no_insert_fails() {
    let batch = vec![product("a", None), product("b", Some("$3.00")), product("c", None)];
    let mut run = PersistRun::new(batch.clone());
    let mut written = Vec::new();
    while let Some(row) = run.next_row(day()) {
        written.push(row);
        run.record(true);
    }
    assert_eq!(written.len(), 3);
    for (row, product) in written.iter().zip(batch.iter()) {
        assert_eq!(
            *row,
            InsertRow {
                name: product.name.clone(),
                price: product.price.clone(),
                old_price: product.old_price.clone(),
                link: product.link.clone(),
                scraped_at: day(),
            }
        );
    }
    assert_eq!(run.committed(), 3);
    assert_eq!(run.attempted(), 3);
    assert!(!run.has_failed());
}

#[test]
fn a_failed_first_insert_commits_nothing() {
    let mut run = PersistRun::new(vec![product("a", None), product("b", None)]);
    assert!(run.next_row(day()).is_some());
    run.record(false);
    assert_eq!(run.committed(), 0);
    assert_eq!(run.attempted(), 1);
    assert_eq!(run.next_row(day()), None);
}

#[test]
fn results_without_a_pending_row_change_nothing() {
    let mut run = PersistRun::new(vec![product("a", None)]);
    run.record(true);
    assert_eq!(run.committed(), 1);
    run.record(false);
    run.record(true);
    assert_eq!(run.committed(), 1);
    assert_eq!(run.attempted(), 1);
    assert!(!run.has_failed());
    let mut failed = PersistRun::new(vec![product("a", None), product("b", None)]);
    failed.record(false);
    failed.record(true);
    assert_eq!(failed.committed(), 0);
    assert_eq!(failed.attempted(), 1);
    assert!(failed.has_failed());
}

#[test]
fn an_empty_batch_has_nothing_to_write() {
    let mut run = PersistRun::new(vec![]);
    assert_eq!(run.next_row(day()), None);
    run.record(true);
    assert_eq!(run.committed(), 0);
    assert_eq!(run.attempted(), 0);
    assert_eq!(run.len(), 0);
}

#[test]
fn a_row_carries_the_day_it_is_written_on() {
    let run = PersistRun::new(vec![product("a", Some("$9.00"))]);
    let other_day = CalendarDate::new(2025, 12, 31).unwrap();
    let row = run.next_row(other_day).unwrap();
    assert_eq!(row.scraped_at, other_day);
    assert_eq!(row.old_price, Some("$9.00".to_string()));
    assert_eq!(row.link, "https://example.com/dp/a");
    assert_eq!(row.price, "$2.00");
}
