use deidentify::calendar::{Date, Timestamp};
use deidentify::codec::Salt;
use deidentify::error::Error;
use deidentify::join::RecordBuilder;
use deidentify::model::{Amount, Person, Purchase, PurchaseDetails, Record};

fn person(id: i64, birth_date: Option<Date>, gender: &str, postal_code: &str) -> Person {
    Person { id, birth_date, gender: gender.to_string(), postal_code: postal_code.to_string() }
}

fn details(product_id: u64) -> PurchaseDetails {
    PurchaseDetails {
        product_id,
        event_id: Some(7),
        start: Some(Date { year: 2018, month: 6, day: 1 }),
        end: None,
        product: "Season pass".to_string(),
        event: "Summer league".to_string(),
        division: "Open".to_string(),
        registration_status: "registered".to_string(),
        total_cost: Amount { bits: 125.5f64.to_bits() },
        total_paid: Amount { bits: 100.0f64.to_bits() },
        total_paid_refund: Amount { bits: 0.0f64.to_bits() },
        total_paid_waived: Amount { bits: 25.5f64.to_bits() },
        status: "paid".to_string(),
        processed_at: Timestamp {
            date: Date { year: 2018, month: 5, day: 20 },
            hour: 14,
            minute: 3,
            second: 59,
            nanosecond: 0,
        },
        quantity: 2,
    }
}

fn purchase(person_id: i64, product_id: u64) -> Purchase {
    Purchase { person_id, details: details(product_id) }
}

fn tagged(id: i64) -> String {
    format!("pseudonym-{}", id)
}

#[test]
fn joins_a_purchase_with_its_person() {
    let people = vec![person(1, Some(Date { year: 1990, month: 5, day: 4 }), "F", "02138-1234")];
    let builder = RecordBuilder::new(people, "pepper").unwrap();
    let record = builder.with_purchase(purchase(1, 40), &tagged).unwrap();
    assert_eq!(
        record,
        Record {
            person_id: tagged(1),
            gender: "F".to_string(),
            birth_year: Some(1990),
            zcta: "021".to_string(),
            details: details(40),
        }
    );
}

#[test]
fn a_missing_person_is_a_failure_that_names_the_identifier() {
    let people = vec![person(1, None, "M", "98101")];
    let builder = RecordBuilder::new(people, "pepper").unwrap();
    let made = builder.with_purchase(purchase(99, 40), &tagged);
    assert_eq!(made, Err(Error::MissingPerson { id: 99 }));
    assert_eq!(made.unwrap_err().message(), "missing person with id: 99");
}

#[test]
fn a_missing_person_is_never_encoded() {
    let builder = RecordBuilder::new(vec![person(1, None, "M", "98101")], "pepper").unwrap();
    let refuse = |id: i64| -> String { panic!("encoded {}", id) };
    assert_eq!(builder.with_purchase(purchase(2, 1), &refuse), Err(Error::MissingPerson { id: 2 }));
}

#[test]
fn the_year_of_birth_is_absent_where_the_date_is() {
    let people = vec![
        person(1, Some(Date { year: 1990, month: 5, day: 4 }), "F", "02138"),
        person(2, None, "M", "02139"),
    ];
    let builder = RecordBuilder::new(people, "pepper").unwrap();
    assert_eq!(builder.with_purchase(purchase(1, 1), &tagged).unwrap().birth_year, Some(1990));
    assert_eq!(builder.with_purchase(purchase(2, 1), &tagged).unwrap().birth_year, None);
}

#[test]
fn the_postal_code_of_a_restricted_bucket_is_suppressed_in_the_row() {
    let people = vec![person(5, None, "F", "03601"), person(6, None, "F", "8")];
    let builder = RecordBuilder::new(people, "pepper").unwrap();
    assert_eq!(builder.with_purchase(purchase(5, 1), &tagged).unwrap().zcta, "000");
    assert_eq!(builder.with_purchase(purchase(6, 1), &tagged).unwrap().zcta, "8");
}

#[test]
fn a_run_skips_the_purchase_of_a_missing_person_and_goes_on() {
    let people = vec![person(1, None, "F", "02138"), person(2, None, "M", "98101")];
    let builder = RecordBuilder::new(people, "pepper").unwrap();
    let purchases = vec![purchase(1, 10), purchase(99, 11), purchase(2, 12)];
    let out = builder.join_all(purchases, &tagged);
    assert_eq!(out.records.len(), 2);
    assert_eq!(out.skipped, vec![Error::MissingPerson { id: 99 }]);
    assert_eq!(out.records[0].person_id, tagged(1));
    assert_eq!(out.records[0].details, details(10));
    assert_eq!(out.records[1].person_id, tagged(2));
    assert_eq!(out.records[1].details, details(12));
}

#[test]
fn a_run_keeps_the_order_of_the_purchases() {
    let people = vec![person(1, None, "F", "02138"), person(2, None, "M", "98101")];
    let builder = RecordBuilder::new(people, "pepper").unwrap();
    let purchases =
        vec![purchase(2, 1), purchase(7, 2), purchase(1, 3), purchase(2, 4), purchase(8, 5)];
    let out = builder.join_all(purchases, &tagged);
    let products: Vec<u64> = out.records.iter().map(|record| record.details.product_id).collect();
    assert_eq!(products, vec![1, 3, 4]);
    let ids: Vec<String> = out.records.iter().map(|record| record.person_id.clone()).collect();
    assert_eq!(ids, vec![tagged(2), tagged(1), tagged(2)]);
    assert_eq!(
        out.skipped,
        vec![Error::MissingPerson { id: 7 }, Error::MissingPerson { id: 8 }]
    );
    assert_eq!(out.records.len() + out.skipped.len(), 5);
}

#[test]
fn a_run_over_no_purchases_gives_nothing() {
    let builder = RecordBuilder::new(vec![person(1, None, "F", "02138")], "pepper").unwrap();
    let out = builder.join_all(Vec::new(), &tagged);
    assert!(out.records.is_empty());
    assert!(out.skipped.is_empty());
}

#[test]
fn the_last_of_two_people_with_one_identifier_is_kept() {
    let people = vec![
        person(1, Some(Date { year: 1980, month: 1, day: 1 }), "F", "02138"),
        person(2, None, "M", "98101"),
        person(1, Some(Date { year: 1991, month: 2, day: 3 }), "X", "60614"),
    ];
    let builder = RecordBuilder::new(people, "pepper").unwrap();
    let found = builder.find(1).unwrap();
    assert_eq!(found.gender, "X");
    assert_eq!(found.birth_date, Some(Date { year: 1991, month: 2, day: 3 }));
    let record = builder.with_purchase(purchase(1, 1), &tagged).unwrap();
    assert_eq!(record.zcta, "606");
    assert_eq!(record.birth_year, Some(1991));
}

#[test]
fn finds_people_by_identifier() {
    let people = vec![person(-3, None, "F", "02138"), person(i64::MAX, None, "M", "98101")];
    let builder = RecordBuilder::new(people, "pepper").unwrap();
    assert_eq!(builder.find(-3).unwrap().postal_code, "02138");
    assert_eq!(builder.find(i64::MAX).unwrap().gender, "M");
    assert_eq!(builder.find(0).unwrap_err(), Error::MissingPerson { id: 0 });
}

#[test]
fn an_empty_table_of_people_holds_nobody() {
    let builder = RecordBuilder::new(Vec::new(), "pepper").unwrap();
    assert_eq!(builder.find(1).unwrap_err(), Error::MissingPerson { id: 1 });
}

#[test]
fn an_empty_salt_is_refused() {
    let built = RecordBuilder::new(vec![person(1, None, "F", "02138")], "");
    assert!(matches!(built, Err(Error::InvalidConfiguration)));
    assert!(matches!(Salt::new(""), Err(Error::InvalidConfiguration)));
}

#[test]
fn the_salt_is_kept_as_it_was_given() {
    let builder = RecordBuilder::new(Vec::new(), "this is my salt").unwrap();
    assert_eq!(builder.salt(), "this is my salt");
    assert_eq!(Salt::new("s").unwrap().as_str(), "s");
    assert_eq!(Salt::new(" ").unwrap().as_str(), " ");
}

#[test]
fn the_pseudonym_is_what_the_encoding_returns_for_the_identifier() {
    let builder = RecordBuilder::new(vec![person(41, None, "F", "02138")], "pepper").unwrap();
    let doubled = |id: i64| -> String { format!("{}", id * 2) };
    assert_eq!(builder.with_purchase(purchase(41, 1), &doubled).unwrap().person_id, "82");
    let first = builder.with_purchase(purchase(41, 1), &tagged).unwrap();
    let second = builder.with_purchase(purchase(41, 1), &tagged).unwrap();
    assert_eq!(first.person_id, second.person_id);
}

#[test]
fn assembles_a_row_from_its_parts() {
    let who = person(3, Some(Date { year: 2001, month: 12, day: 31 }), "F", "89045");
    let record = Record::assemble(&who, purchase(3, 9), "abc".to_string());
    assert_eq!(record.person_id, "abc");
    assert_eq!(record.gender, "F");
    assert_eq!(record.birth_year, Some(2001));
    assert_eq!(record.zcta, "000");
    assert_eq!(record.details, details(9));
}
