//! The tables that are read and the records that are written.

use crate::calendar::{birth_year, year_of, Date, Timestamp};
use crate::zcta::{postal_code_to_zcta, zcta_of};
use vstd::prelude::*;

verus! {

/// An amount of money, held as the bit pattern of the binary64 number that the
/// tables write. The library carries amounts and never computes with them.
#[derive(Clone, Copy, Debug, PartialEq, Eq, Structural)]
pub struct Amount {
    pub bits: u64,
}

/// One individual of the reference table.
#[derive(Clone, Debug, PartialEq, Eq)]
pub struct Person {
    pub id: i64,
    pub birth_date: Option<Date>,
    pub gender: String,
    pub postal_code: String,
}

/// What a purchase says of the transaction itself. None of it identifies the
/// person, so all of it is published as it was read.
#[derive(Clone, Debug, PartialEq, Eq)]
pub struct PurchaseDetails {
    pub product_id: u64,
    pub event_id: Option<u64>,
    pub start: Option<Date>,
    pub end: Option<Date>,
    pub product: String,
    pub event: String,
    pub division: String,
    pub registration_status: String,
    pub total_cost: Amount,
    pub total_paid: Amount,
    pub total_paid_refund: Amount,
    pub total_paid_waived: Amount,
    pub status: String,
    pub processed_at: Timestamp,
    pub quantity: u64,
}

/// One transaction, with the identifier of the person who made it.
#[derive(Clone, Debug, PartialEq, Eq)]
pub struct Purchase {
    pub person_id: i64,
    pub details: PurchaseDetails,
}

/// One published row: a purchase with what may be told of its person.
#[derive(Clone, Debug, PartialEq, Eq)]
pub struct Record {
    pub person_id: String,
    pub gender: String,
    pub birth_year: Option<i32>,
    pub zcta: String,
    pub details: PurchaseDetails,
}

/// A `Person` as a mathematical value.
pub struct PersonView {
    pub id: i64,
    pub birth_date: Option<Date>,
    pub gender: Seq<char>,
    pub postal_code: Seq<char>,
}

/// A `PurchaseDetails` as a mathematical value.
pub struct PurchaseDetailsView {
    pub product_id: u64,
    pub event_id: Option<u64>,
    pub start: Option<Date>,
    pub end: Option<Date>,
    pub product: Seq<char>,
    pub event: Seq<char>,
    pub division: Seq<char>,
    pub registration_status: Seq<char>,
    pub total_cost: Amount,
    pub total_paid: Amount,
    pub total_paid_refund: Amount,
    pub total_paid_waived: Amount,
    pub status: Seq<char>,
    pub processed_at: Timestamp,
    pub quantity: u64,
}

/// A `Purchase` as a mathematical value.
pub struct PurchaseView {
    pub person_id: i64,
    pub details: PurchaseDetailsView,
}

/// A `Record` as a mathematical value.
pub struct RecordView {
    pub person_id: Seq<char>,
    pub gender: Seq<char>,
    pub birth_year: Option<i32>,
    pub zcta: Seq<char>,
    pub details: PurchaseDetailsView,
}

impl View for Person {
    type V = PersonView;

    open spec fn view(&self) -> PersonView {
        PersonView {
            id: self.id,
            birth_date: self.birth_date,
            gender: self.gender@,
            postal_code: self.postal_code@,
        }
    }
}

impl View for PurchaseDetails {
    type V = PurchaseDetailsView;

    open spec fn view(&self) -> PurchaseDetailsView {
        PurchaseDetailsView {
            product_id: self.product_id,
            event_id: self.event_id,
            start: self.start,
            end: self.end,
            product: self.product@,
            event: self.event@,
            division: self.division@,
            registration_status: self.registration_status@,
            total_cost: self.total_cost,
            total_paid: self.total_paid,
            total_paid_refund: self.total_paid_refund,
            total_paid_waived: self.total_paid_waived,
            status: self.status@,
            processed_at: self.processed_at,
            quantity: self.quantity,
        }
    }
}

impl View for Purchase {
    type V = PurchaseView;

    open spec fn view(&self) -> PurchaseView {
        PurchaseView { person_id: self.person_id, details: self.details@ }
    }
}

impl View for Record {
    type V = RecordView;

    open spec fn view(&self) -> RecordView {
        RecordView {
            person_id: self.person_id@,
            gender: self.gender@,
            birth_year: self.birth_year,
            zcta: self.zcta@,
            details: self.details@,
        }
    }
}

/// The row that is published for `purchase`, made by `person`, under
/// `pseudonym`: the pseudonym in place of the identifier, the year in place of
/// the date of birth, the bucket in place of the postal code, and the details
/// of the purchase as they are.
pub open spec fn joined(person: PersonView, purchase: PurchaseView, pseudonym: Seq<char>)
    -> RecordView {
    RecordView {
        person_id: pseudonym,
        gender: person.gender,
        birth_year: year_of(person.birth_date),
        zcta: zcta_of(person.postal_code),
        details: purchase.details,
    }
}

impl Record {
    /// Puts together the row that is published for `purchase`, made by
    /// `person`, whose pseudonym is `pseudonym`.
    pub fn assemble(person: &Person, purchase: Purchase, pseudonym: String) -> (record: Record)
        ensures
            record@ == joined(person@, purchase@, pseudonym@),
            record.person_id == pseudonym,
            record.details == purchase.details,
    {
        Record {
            person_id: pseudonym,
            gender: person.gender.clone(),
            birth_year: birth_year(person.birth_date),
            zcta: postal_code_to_zcta(person.postal_code.as_str()),
            details: purchase.details,
        }
    }
}

} // verus!
