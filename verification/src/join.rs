//! Joining purchases with the people who made them.

use crate::codec::Salt;
use crate::error::Error;
use crate::model::{joined, Person, PersonView, Purchase, PurchaseView, Record};
use std::collections::HashMap;
use vstd::prelude::*;

verus! {

broadcast use vstd::std_specs::hash::group_hash_axioms;

/// The people of a table as mathematical values, in the order of the table.
pub open spec fn views_of(people: Seq<Person>) -> Seq<PersonView> {
    people.map_values(|person: Person| person@)
}

/// The lookup that a table of people gives: each identifier of the table leads
/// to the last person of the table who has it.
pub open spec fn lookup_of(people: Seq<PersonView>) -> Map<i64, PersonView>
    decreases people.len(),
{
    if people.len() == 0 {
        Map::empty()
    } else {
        lookup_of(people.drop_last()).insert(people.last().id, people.last())
    }
}

/// The purchases of a table as mathematical values, in the order of the table.
pub open spec fn purchase_views(purchases: Seq<Purchase>) -> Seq<PurchaseView> {
    purchases.map_values(|purchase: Purchase| purchase@)
}

/// The purchases whose person the lookup holds, in the order of the table.
pub open spec fn matched(lookup: Map<i64, PersonView>, purchases: Seq<PurchaseView>) -> Seq<
    PurchaseView,
>
    decreases purchases.len(),
{
    if purchases.len() == 0 {
        Seq::empty()
    } else if lookup.contains_key(purchases.last().person_id) {
        matched(lookup, purchases.drop_last()).push(purchases.last())
    } else {
        matched(lookup, purchases.drop_last())
    }
}

/// One failure for each purchase whose person the lookup does not hold, in the
/// order of the table.
pub open spec fn missing(lookup: Map<i64, PersonView>, purchases: Seq<PurchaseView>) -> Seq<Error>
    decreases purchases.len(),
{
    if purchases.len() == 0 {
        Seq::empty()
    } else if lookup.contains_key(purchases.last().person_id) {
        missing(lookup, purchases.drop_last())
    } else {
        missing(lookup, purchases.drop_last()).push(
            Error::MissingPerson { id: purchases.last().person_id },
        )
    }
}

/// What a run over a table of purchases gives: the rows to publish, and the
/// failures to report for the purchases that were left out.
#[derive(Debug)]
pub struct Joined {
    pub records: Vec<Record>,
    pub skipped: Vec<Error>,
}

/// The people of a run, found by their identifier, and the salt that keys
/// their pseudonyms.
#[derive(Debug)]
pub struct RecordBuilder {
    salt: Salt,
    people: HashMap<i64, Person>,
}

impl View for RecordBuilder {
    type V = Map<i64, PersonView>;

    closed spec fn view(&self) -> Map<i64, PersonView> {
        Map::new(|id: i64| self.people@.contains_key(id), |id: i64| self.people@[id]@)
    }
}

impl RecordBuilder {
    #[verifier::type_invariant]
    spec fn well_formed(self) -> bool {
        forall|id: i64| #[trigger] self.people@.contains_key(id) ==> self.people@[id].id == id
    }

    /// The salt that keys the pseudonyms of this run.
    pub closed spec fn spec_salt(&self) -> Seq<char> {
        self.salt@
    }

    /// Indexes `people` by identifier and keeps `salt`.
    ///
    /// An empty salt is refused. Where two people of the table share an
    /// identifier, the later one is kept.
    pub fn new(people: Vec<Person>, salt: &str) -> (built: Result<RecordBuilder, Error>)
        ensures
            match built {
                Ok(builder) => {
                    &&& salt@.len() > 0
                    &&& builder.spec_salt() == salt@
                    &&& builder@ == lookup_of(views_of(people@))
                },
                Err(error) => salt@.len() == 0 && error == Error::InvalidConfiguration,
            },
    {
        let salt = match Salt::new(salt) {
            Ok(salt) => salt,
            Err(error) => {
                return Err(error);
            },
        };
        let ghost table = people@;
        let mut index: HashMap<i64, Person> = HashMap::new();
        for person in iter: people
            invariant
                iter.seq() == table,
                forall|id: i64| #[trigger] index@.contains_key(id) ==> index@[id].id == id,
                Map::new(|id: i64| index@.contains_key(id), |id: i64| index@[id]@) == lookup_of(
                    views_of(table.take(iter.index() as int)),
                ),
        {
            let ghost before = index@;
            let ghost seen = table.take(iter.index() as int);
            let ghost next = table.take(iter.index() + 1);
            index.insert(person.id, person);
            proof {
                assert(next.drop_last() =~= seen);
                assert(views_of(next).drop_last() =~= views_of(seen));
                assert(views_of(next).last() == person@);
                assert(index@ == before.insert(person.id, person));
                assert(Map::new(|id: i64| index@.contains_key(id), |id: i64| index@[id]@)
                    =~= lookup_of(views_of(seen)).insert(person.id, person@));
            }
        }
        proof {
            assert(table.take(table.len() as int) =~= table);
        }
        Ok(RecordBuilder { salt, people: index })
    }

    /// The salt that keys the pseudonyms of this run.
    pub fn salt(&self) -> (salt: &str)
        ensures
            salt@ == self.spec_salt(),
            salt@.len() > 0,
    {
        self.salt.as_str()
    }

    /// Looks up the person with the identifier `id`.
    pub fn find(&self, id: i64) -> (found: Result<&Person, Error>)
        ensures
            match found {
                Ok(person) => self@.contains_key(id) && person@ == self@[id] && person.id == id,
                Err(error) => !self@.contains_key(id) && error == Error::MissingPerson { id },
            },
    {
        proof {
            use_type_invariant(self);
        }
        match self.people.get(&id) {
            Some(person) => Ok(person),
            None => Err(Error::MissingPerson { id }),
        }
    }

    /// Joins `purchase` with the person who made it.
    ///
    /// Where the person is missing, that is the failure, and `encode` is not
    /// called. Otherwise `encode` is called once, on the person's identifier,
    /// and what it returns is the pseudonym of the row.
    pub fn with_purchase<F: Fn(i64) -> String>(&self, purchase: Purchase, encode: &F) -> (made:
        Result<Record, Error>)
        requires
            self@.contains_key(purchase.person_id) ==> call_requires(
                encode,
                (purchase.person_id,),
            ),
        ensures
            match made {
                Ok(record) => {
                    &&& self@.contains_key(purchase.person_id)
                    &&& call_ensures(encode, (purchase.person_id,), record.person_id)
                    &&& record@ == joined(
                        self@[purchase.person_id],
                        purchase@,
                        record.person_id@,
                    )
                },
                Err(error) => {
                    &&& !self@.contains_key(purchase.person_id)
                    &&& error == Error::MissingPerson { id: purchase.person_id }
                },
            },
    {
        match self.find(purchase.person_id) {
            Ok(person) => {
                let pseudonym = encode(person.id);
                Ok(Record::assemble(person, purchase, pseudonym))
            },
            Err(error) => Err(error),
        }
    }

    /// Joins each of `purchases` with the person who made it.
    ///
    /// The rows come out in the order of their purchases. A purchase whose
    /// person is missing gives no row and one failure, and does not stop the
    /// run.
    pub fn join_all<F: Fn(i64) -> String>(&self, purchases: Vec<Purchase>, encode: &F) -> (out:
        Joined)
        requires
            forall|i: int|
                0 <= i < purchases.len() && self@.contains_key(
                    (#[trigger] purchases[i]).person_id,
                ) ==> call_requires(encode, (purchases[i].person_id,)),
        ensures
            out.skipped@ == missing(self@, purchase_views(purchases@)),
            out.records.len() == matched(self@, purchase_views(purchases@)).len(),
            forall|k: int|
                0 <= k < out.records.len() ==> {
                    let purchase = matched(self@, purchase_views(purchases@))[k];
                    &&& call_ensures(encode, (purchase.person_id,), (#[trigger] out.records[k]).person_id)
                    &&& out.records[k]@ == joined(
                        self@[purchase.person_id],
                        purchase,
                        out.records[k].person_id@,
                    )
                },
    {
        let ghost table = purchases@;
        let mut records: Vec<Record> = Vec::new();
        let mut skipped: Vec<Error> = Vec::new();
        for purchase in iter: purchases
            invariant
                iter.seq() == table,
                forall|i: int|
                    0 <= i < table.len() && self@.contains_key((#[trigger] table[i]).person_id)
                        ==> call_requires(encode, (table[i].person_id,)),
                skipped@ == missing(self@, purchase_views(table.take(iter.index() as int))),
                records.len() == matched(
                    self@,
                    purchase_views(table.take(iter.index() as int)),
                ).len(),
                forall|k: int|
                    0 <= k < records.len() ==> {
                        let purchase = matched(
                            self@,
                            purchase_views(table.take(iter.index() as int)),
                        )[k];
                        &&& call_ensures(encode, (purchase.person_id,), (#[trigger] records[k]).person_id)
                        &&& records[k]@ == joined(
                            self@[purchase.person_id],
                            purchase,
                            records[k].person_id@,
                        )
                    },
        {
            let ghost seen = purchase_views(table.take(iter.index() as int));
            let ghost next = purchase_views(table.take(iter.index() + 1));
            proof {
                assert(table.take(iter.index() + 1).drop_last() =~= table.take(
                    iter.index() as int,
                ));
                assert(next.drop_last() =~= seen);
                assert(next.last() == purchase@);
                assert(table[iter.index() as int] == purchase);
            }
            match self.with_purchase(purchase, encode) {
                Ok(record) => {
                    records.push(record);
                },
                Err(error) => {
                    skipped.push(error);
                },
            }
        }
        proof {
            assert(table.take(table.len() as int) =~= table);
        }
        Joined { records, skipped }
    }
}

/// The lookup holds exactly the identifiers of the table, and each leads to a
/// person with that identifier.
pub proof fn lemma_lookup_holds_the_table(people: Seq<PersonView>, id: i64)
    ensures
        lookup_of(people).contains_key(id) <==> exists|i: int|
            0 <= i < people.len() && (#[trigger] people[i]).id == id,
        lookup_of(people).contains_key(id) ==> lookup_of(people)[id].id == id,
    decreases people.len(),
{
    if people.len() > 0 {
        let rest = people.drop_last();
        lemma_lookup_holds_the_table(rest, id);
        if people.last().id == id {
            assert(people[people.len() - 1].id == id);
        } else if lookup_of(rest).contains_key(id) {
            let i = choose|i: int| 0 <= i < rest.len() && (#[trigger] rest[i]).id == id;
            assert(people[i].id == id);
        } else {
            assert forall|i: int| 0 <= i < people.len() implies (#[trigger] people[i]).id
                != id by {
                if i < rest.len() {
                    assert(rest[i].id != id);
                }
            }
        }
    }
}

/// Where several people of the table share an identifier, the lookup leads to
/// the last of them.
pub proof fn lemma_lookup_last_wins(people: Seq<PersonView>, i: int)
    requires
        0 <= i < people.len(),
        forall|j: int| i < j < people.len() ==> (#[trigger] people[j]).id != people[i].id,
    ensures
        lookup_of(people).contains_key(people[i].id),
        lookup_of(people)[people[i].id] == people[i],
    decreases people.len(),
{
    if i < people.len() - 1 {
        let rest = people.drop_last();
        assert(people[people.len() - 1].id != people[i].id);
        assert forall|j: int| i < j < rest.len() implies (#[trigger] rest[j]).id
            != rest[i].id by {
            assert(people[j].id != people[i].id);
        }
        lemma_lookup_last_wins(rest, i);
    }
}

/// Each purchase gives either one row or one failure.
pub proof fn lemma_joined_or_skipped(lookup: Map<i64, PersonView>, purchases: Seq<PurchaseView>)
    ensures
        matched(lookup, purchases).len() + missing(lookup, purchases).len() == purchases.len(),
    decreases purchases.len(),
{
    if purchases.len() > 0 {
        lemma_joined_or_skipped(lookup, purchases.drop_last());
    }
}

/// A purchase whose person is missing changes no row of the run: the rows are
/// those of the table without it.
pub proof fn lemma_skipped_purchase_changes_no_row(
    lookup: Map<i64, PersonView>,
    before: Seq<PurchaseView>,
    skipped: PurchaseView,
    after: Seq<PurchaseView>,
)
    requires
        !lookup.contains_key(skipped.person_id),
    ensures
        matched(lookup, before.push(skipped) + after) == matched(lookup, before + after),
    decreases after.len(),
{
    if after.len() == 0 {
        assert(before.push(skipped) + after =~= before.push(skipped));
        assert(before + after =~= before);
        assert(before.push(skipped).drop_last() =~= before);
    } else {
        let with = before.push(skipped) + after;
        let without = before + after;
        assert(with.drop_last() =~= before.push(skipped) + after.drop_last());
        assert(without.drop_last() =~= before + after.drop_last());
        assert(with.last() == after.last());
        assert(without.last() == after.last());
        lemma_skipped_purchase_changes_no_row(lookup, before, skipped, after.drop_last());
    }
}

/// Where the lookup holds the person of every purchase, every purchase gives a
/// row and there is no failure.
pub proof fn lemma_complete_join(lookup: Map<i64, PersonView>, purchases: Seq<PurchaseView>)
    requires
        forall|i: int|
            0 <= i < purchases.len() ==> lookup.contains_key((#[trigger] purchases[i]).person_id),
    ensures
        matched(lookup, purchases) == purchases,
        missing(lookup, purchases) == Seq::<Error>::empty(),
    decreases purchases.len(),
{
    if purchases.len() > 0 {
        let rest = purchases.drop_last();
        assert forall|i: int| 0 <= i < rest.len() implies lookup.contains_key(
            (#[trigger] rest[i]).person_id,
        ) by {
            assert(rest[i] == purchases[i]);
        }
        lemma_complete_join(lookup, rest);
        assert(lookup.contains_key(purchases[purchases.len() - 1].person_id));
        assert(rest.push(purchases.last()) =~= purchases);
    } else {
        assert(purchases =~= Seq::<PurchaseView>::empty());
    }
}

} // verus!
