//! Cleaning a table that was merged before.
//!
//! A row of such a table may have been cleaned already: its identifier is
//! either still the number of the reference table or a pseudonym. Cleaning
//! replaces a number by its pseudonym, leaves a pseudonym alone, and reduces
//! the postal code to its published bucket, so that cleaning a cleaned row
//! changes nothing.

use crate::model::{PurchaseDetails, PurchaseDetailsView};
use crate::zcta::{lemma_zcta_idempotent, postal_code_to_zcta, zcta_of};
use vstd::prelude::*;

verus! {

/// The identifier of a person in a merged row.
#[derive(Clone, Debug, PartialEq, Eq)]
pub enum PersonId {
    /// The number of the reference table.
    Raw(i64),
    /// A pseudonym.
    Clean(String),
}

/// One row of a merged table.
#[derive(Clone, Debug, PartialEq, Eq)]
pub struct MergedRecord {
    pub person_id: PersonId,
    pub gender: String,
    pub birth_year: Option<i32>,
    pub postal_code: String,
    pub details: PurchaseDetails,
}

/// A `PersonId` as a mathematical value.
pub enum PersonIdView {
    Raw(i64),
    Clean(Seq<char>),
}

/// A `MergedRecord` as a mathematical value.
pub struct MergedRecordView {
    pub person_id: PersonIdView,
    pub gender: Seq<char>,
    pub birth_year: Option<i32>,
    pub postal_code: Seq<char>,
    pub details: PurchaseDetailsView,
}

impl View for PersonId {
    type V = PersonIdView;

    open spec fn view(&self) -> PersonIdView {
        match self {
            PersonId::Raw(id) => PersonIdView::Raw(*id),
            PersonId::Clean(pseudonym) => PersonIdView::Clean(pseudonym@),
        }
    }
}

impl View for MergedRecord {
    type V = MergedRecordView;

    open spec fn view(&self) -> MergedRecordView {
        MergedRecordView {
            person_id: self.person_id@,
            gender: self.gender@,
            birth_year: self.birth_year,
            postal_code: self.postal_code@,
            details: self.details@,
        }
    }
}

/// The identifier after cleaning: a number gives way to `pseudonym`, a
/// pseudonym stays.
pub open spec fn cleaned_id(id: PersonIdView, pseudonym: Seq<char>) -> PersonIdView {
    match id {
        PersonIdView::Raw(_) => PersonIdView::Clean(pseudonym),
        PersonIdView::Clean(kept) => PersonIdView::Clean(kept),
    }
}

/// The row after cleaning, where `pseudonym` is the pseudonym of its number.
pub open spec fn cleaned(record: MergedRecordView, pseudonym: Seq<char>) -> MergedRecordView {
    MergedRecordView {
        person_id: cleaned_id(record.person_id, pseudonym),
        gender: record.gender,
        birth_year: record.birth_year,
        postal_code: zcta_of(record.postal_code),
        details: record.details,
    }
}

/// Whether a row has been cleaned: its identifier is a pseudonym and its
/// postal code is a published bucket.
pub open spec fn is_clean(record: MergedRecordView) -> bool {
    record.person_id is Clean && zcta_of(record.postal_code) == record.postal_code
}

/// The pseudonym that a cleaned row carries.
pub open spec fn pseudonym_of(id: PersonId) -> String
    recommends
        id is Clean,
{
    id->Clean_0
}

impl PersonId {
    /// The number that is still to be encoded, if there is one.
    pub fn raw(&self) -> (id: Option<i64>)
        ensures
            id == match self@ {
                PersonIdView::Raw(number) => Some(number),
                PersonIdView::Clean(_) => None,
            },
    {
        match self {
            PersonId::Raw(number) => Some(*number),
            PersonId::Clean(_) => None,
        }
    }
}

/// Cleans `record`, given the pseudonym of its number. The pseudonym is used
/// only where the identifier of the row is still a number.
pub fn clean_with(record: MergedRecord, pseudonym: String) -> (out: MergedRecord)
    ensures
        out@ == cleaned(record@, pseudonym@),
        out.person_id == (match record.person_id {
            PersonId::Raw(_) => PersonId::Clean(pseudonym),
            PersonId::Clean(kept) => PersonId::Clean(kept),
        }),
        is_clean(out@),
{
    proof {
        lemma_zcta_idempotent(record.postal_code@);
    }
    let person_id = match record.person_id {
        PersonId::Raw(_) => PersonId::Clean(pseudonym),
        PersonId::Clean(kept) => PersonId::Clean(kept),
    };
    MergedRecord {
        person_id,
        gender: record.gender,
        birth_year: record.birth_year,
        postal_code: postal_code_to_zcta(record.postal_code.as_str()),
        details: record.details,
    }
}

/// Cleans `record`.
///
/// Where the identifier is still a number, `encode` is called once, on that
/// number, and what it returns takes the number's place. Where it is a
/// pseudonym already, `encode` is not called and the pseudonym stays. Either
/// way the postal code is reduced to its published bucket.
pub fn clean<F: Fn(i64) -> String>(record: MergedRecord, encode: &F) -> (out: MergedRecord)
    requires
        record.person_id matches PersonId::Raw(id) ==> call_requires(encode, (id,)),
    ensures
        out.person_id is Clean,
        record.person_id matches PersonId::Raw(id) ==> call_ensures(
            encode,
            (id,),
            pseudonym_of(out.person_id),
        ),
        out@ == cleaned(record@, pseudonym_of(out.person_id)@),
        is_clean(out@),
{
    match record.person_id.raw() {
        Some(id) => {
            let pseudonym = encode(id);
            clean_with(record, pseudonym)
        },
        None => {
            proof {
                lemma_zcta_idempotent(record.postal_code@);
            }
            MergedRecord {
                person_id: record.person_id,
                gender: record.gender,
                birth_year: record.birth_year,
                postal_code: postal_code_to_zcta(record.postal_code.as_str()),
                details: record.details,
            }
        },
    }
}

/// Cleans every row of a table, in the order of the table.
pub fn clean_all<F: Fn(i64) -> String>(records: Vec<MergedRecord>, encode: &F) -> (out: Vec<
    MergedRecord,
>)
    requires
        forall|i: int|
            0 <= i < records.len() ==> ((#[trigger] records[i]).person_id matches PersonId::Raw(id)
                ==> call_requires(encode, (id,))),
    ensures
        out.len() == records.len(),
        forall|i: int|
            0 <= i < records.len() ==> {
                &&& (#[trigger] out[i]).person_id is Clean
                &&& records[i].person_id matches PersonId::Raw(id) ==> call_ensures(
                    encode,
                    (id,),
                    pseudonym_of(out[i].person_id),
                )
                &&& out[i]@ == cleaned(records[i]@, pseudonym_of(out[i].person_id)@)
            },
{
    let ghost table = records@;
    let mut out: Vec<MergedRecord> = Vec::new();
    for record in iter: records
        invariant
            iter.seq() == table,
            forall|i: int|
                0 <= i < table.len() ==> ((#[trigger] table[i]).person_id matches PersonId::Raw(id)
                    ==> call_requires(encode, (id,))),
            out.len() == iter.index(),
            forall|i: int|
                0 <= i < out.len() ==> {
                    &&& (#[trigger] out[i]).person_id is Clean
                    &&& table[i].person_id matches PersonId::Raw(id) ==> call_ensures(
                        encode,
                        (id,),
                        pseudonym_of(out[i].person_id),
                    )
                    &&& out[i]@ == cleaned(table[i]@, pseudonym_of(out[i].person_id)@)
                },
    {
        assert(table[iter.index() as int] == record);
        out.push(clean(record, encode));
    }
    out
}

/// Cleaning a cleaned row changes nothing, whatever pseudonym is on offer the
/// second time.
pub proof fn lemma_clean_idempotent(record: MergedRecordView, first: Seq<char>, second: Seq<char>)
    ensures
        cleaned(cleaned(record, first), second) == cleaned(record, first),
{
    lemma_zcta_idempotent(record.postal_code);
}

/// A row that has been cleaned is left as it is by cleaning, and cleaning
/// always gives such a row.
pub proof fn lemma_clean_fixes_clean_rows(record: MergedRecordView, pseudonym: Seq<char>)
    ensures
        is_clean(cleaned(record, pseudonym)),
        is_clean(record) ==> cleaned(record, pseudonym) == record,
{
    lemma_zcta_idempotent(record.postal_code);
}

} // verus!
