//! The key of the pseudonyms.
//!
//! A pseudonym is a keyed, reversible encoding of a person's identifier. The
//! encoding itself is supplied by the caller; the library keeps the key, the
//! salt, and refuses one that keys nothing.

use crate::error::Error;
use vstd::prelude::*;
use vstd::string::*;

verus! {

/// A salt that can key pseudonyms: a text with at least one character.
#[derive(Debug)]
pub struct Salt {
    text: String,
}

impl View for Salt {
    type V = Seq<char>;

    closed spec fn view(&self) -> Seq<char> {
        self.text@
    }
}

impl Salt {
    #[verifier::type_invariant]
    spec fn well_formed(self) -> bool {
        self.text@.len() > 0
    }

    /// Accepts `text` as a salt, unless it is empty.
    pub fn new(text: &str) -> (made: Result<Salt, Error>)
        ensures
            match made {
                Ok(salt) => text@.len() > 0 && salt@ == text@,
                Err(error) => text@.len() == 0 && error == Error::InvalidConfiguration,
            },
    {
        if text.unicode_len() == 0 {
            Err(Error::InvalidConfiguration)
        } else {
            Ok(Salt { text: String::from_str(text) })
        }
    }

    /// The text of the salt, which is never empty.
    pub fn as_str(&self) -> (text: &str)
        ensures
            text@ == self@,
            text@.len() > 0,
    {
        proof {
            use_type_invariant(self);
        }
        self.text.as_str()
    }
}

} // verus!
