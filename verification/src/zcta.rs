//! Geographic generalisation of postal codes.
//!
//! A postal code is reduced to its first three characters, its bucket. Buckets
//! whose population is too small to be published are replaced by one sentinel
//! bucket that carries no geographic information.

use vstd::prelude::*;
use vstd::string::*;

verus! {

/// The buckets that are never published, as they are compared at run time.
pub const RESTRICTED_ZCTAS: [&'static str; 17] = [
    "036", "692", "878", "059", "790", "879", "063", "821", "884", "102", "823", "890", "203",
    "830", "893", "556", "831",
];

/// The bucket that stands for "no geographic information".
pub const NULL_ZCTA: &'static str = "000";

/// How many characters of a postal code make up its bucket.
pub const ZCTA_LEN: usize = 3;

/// The buckets that are never published.
pub open spec fn restricted_zctas() -> Seq<Seq<char>> {
    seq![
        seq!['0', '3', '6'],
        seq!['6', '9', '2'],
        seq!['8', '7', '8'],
        seq!['0', '5', '9'],
        seq!['7', '9', '0'],
        seq!['8', '7', '9'],
        seq!['0', '6', '3'],
        seq!['8', '2', '1'],
        seq!['8', '8', '4'],
        seq!['1', '0', '2'],
        seq!['8', '2', '3'],
        seq!['8', '9', '0'],
        seq!['2', '0', '3'],
        seq!['8', '3', '0'],
        seq!['8', '9', '3'],
        seq!['5', '5', '6'],
        seq!['8', '3', '1'],
    ]
}

/// The sentinel bucket, `000`.
pub open spec fn null_zcta() -> Seq<char> {
    seq!['0', '0', '0']
}

/// The first three characters of `code`, or all of it where it has fewer.
pub open spec fn bucket_of(code: Seq<char>) -> Seq<char> {
    if code.len() <= 3 {
        code
    } else {
        code.subrange(0, 3)
    }
}

/// Whether `bucket` is one of the buckets that are never published.
pub open spec fn is_restricted(bucket: Seq<char>) -> bool {
    exists|i: int| 0 <= i < restricted_zctas().len() && restricted_zctas()[i] == bucket
}

/// The published bucket of a postal code: its first three characters, or the
/// sentinel where those are a restricted bucket.
pub open spec fn zcta_of(code: Seq<char>) -> Seq<char> {
    if is_restricted(bucket_of(code)) {
        null_zcta()
    } else {
        bucket_of(code)
    }
}

/// The `i`-th restricted bucket.
fn restricted_zcta(i: usize) -> (bucket: &'static str)
    requires
        i < 17,
    ensures
        bucket@ == restricted_zctas()[i as int],
{
    proof {
        reveal_strlit("036");
        reveal_strlit("692");
        reveal_strlit("878");
        reveal_strlit("059");
        reveal_strlit("790");
        reveal_strlit("879");
        reveal_strlit("063");
        reveal_strlit("821");
        reveal_strlit("884");
        reveal_strlit("102");
        reveal_strlit("823");
        reveal_strlit("890");
        reveal_strlit("203");
        reveal_strlit("830");
        reveal_strlit("893");
        reveal_strlit("556");
        reveal_strlit("831");
    }
    let bucket = RESTRICTED_ZCTAS[i];
    assert(bucket@ =~= restricted_zctas()[i as int]);
    bucket
}

/// Whether `bucket` is one of the buckets that are never published.
pub fn is_restricted_zcta(bucket: &str) -> (restricted: bool)
    ensures
        restricted == is_restricted(bucket@),
{
    let candidate = String::from_str(bucket);
    let mut i: usize = 0;
    while i < 17
        invariant
            i <= 17,
            candidate@ == bucket@,
            restricted_zctas().len() == 17,
            forall|j: int| 0 <= j < i ==> restricted_zctas()[j] != bucket@,
        decreases 17 - i,
    {
        let entry = String::from_str(restricted_zcta(i));
        if candidate == entry {
            return true;
        }
        i += 1;
    }
    false
}

/// Reduces a postal code to the bucket that may be published for it.
///
/// The bucket is the first three characters of the code (all of it where it
/// has fewer, without padding); a restricted bucket is replaced by the
/// sentinel `000`.
pub fn postal_code_to_zcta(postal_code: &str) -> (zcta: String)
    ensures
        zcta@ == zcta_of(postal_code@),
{
    let len = postal_code.unicode_len();
    let taken: usize = if len < ZCTA_LEN {
        len
    } else {
        ZCTA_LEN
    };
    let bucket = postal_code.substring_char(0, taken);
    assert(bucket@ =~= bucket_of(postal_code@));
    if is_restricted_zcta(bucket) {
        proof {
            reveal_strlit("000");
        }
        assert(NULL_ZCTA@ =~= null_zcta());
        String::from_str(NULL_ZCTA)
    } else {
        String::from_str(bucket)
    }
}

/// The sentinel is not itself a restricted bucket.
pub proof fn lemma_null_zcta_is_published()
    ensures
        !is_restricted(null_zcta()),
{
    assert forall|i: int| 0 <= i < restricted_zctas().len() implies restricted_zctas()[i]
        != null_zcta() by {
        let entry = restricted_zctas()[i];
        assert(entry[0] != '0' || entry[1] != '0' || entry[2] != '0');
        assert(null_zcta()[0] == '0' && null_zcta()[1] == '0' && null_zcta()[2] == '0');
    }
}

/// A postal code whose first three characters are a restricted bucket is
/// published as the sentinel.
pub proof fn lemma_restricted_prefix_is_suppressed(code: Seq<char>, i: int)
    requires
        0 <= i < restricted_zctas().len(),
        code.len() >= 3,
        code.subrange(0, 3) == restricted_zctas()[i],
    ensures
        zcta_of(code) == null_zcta(),
{
    assert(restricted_zctas()[i].len() == 3);
    assert(code.subrange(0, 3) =~= bucket_of(code));
}

/// A published bucket is never a restricted one, and is the sentinel only for
/// a code that starts with the sentinel or with a restricted bucket.
pub proof fn lemma_published_bucket(code: Seq<char>)
    ensures
        !is_restricted(zcta_of(code)),
        zcta_of(code).len() <= 3,
        zcta_of(code) == null_zcta() <==> (is_restricted(bucket_of(code)) || bucket_of(code)
            == null_zcta()),
{
    lemma_null_zcta_is_published();
}

/// Generalising a bucket that was already published changes nothing.
pub proof fn lemma_zcta_idempotent(code: Seq<char>)
    ensures
        zcta_of(zcta_of(code)) == zcta_of(code),
{
    lemma_published_bucket(code);
    assert(bucket_of(zcta_of(code)) =~= zcta_of(code));
}

} // verus!
