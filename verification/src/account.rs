//! Account identifiers.
//!
//! An account identifier is a short lowercase name made of alphanumeric runs
//! joined by single separators.  `AccountId` carries the proof of that shape
//! with it: every value of the type is a valid identifier.

use vstd::prelude::*;

verus! {

/// Shortest account identifier, in characters.
pub const MIN_ACCOUNT_ID_LEN: usize = 2;

/// Longest account identifier, in characters.
pub const MAX_ACCOUNT_ID_LEN: usize = 64;

/// The characters that may join two alphanumeric runs.
pub open spec fn is_separator(c: char) -> bool {
    c == '-' || c == '_' || c == '.'
}

/// Lowercase ASCII letters and digits.
pub open spec fn is_lower_alphanumeric(c: char) -> bool {
    ('a' <= c && c <= 'z') || ('0' <= c && c <= '9')
}

/// The shape of an account identifier: between two and sixty-four characters,
/// each a lowercase letter, a digit or a separator, where no separator stands
/// first, last, or next to another separator.
pub open spec fn valid_account_id(s: Seq<char>) -> bool {
    &&& MIN_ACCOUNT_ID_LEN <= s.len() <= MAX_ACCOUNT_ID_LEN
    &&& forall|i: int| 0 <= i < s.len() ==> is_lower_alphanumeric(#[trigger] s[i]) || is_separator(s[i])
    &&& !is_separator(s[0])
    &&& !is_separator(s[s.len() - 1])
    &&& forall|i: int| 0 <= i < s.len() - 1 ==> !(is_separator(#[trigger] s[i]) && is_separator(s[i + 1]))
}

/// Calls `near_sdk::AccountId::validate`, which accepts a string exactly when
/// it has the shape that `valid_account_id` describes: the length bounds are
/// checked first, then every character, then the position of the separators.
#[verifier::external_body]
fn near_validate(s: &str) -> (ok: bool)
    ensures
        ok == valid_account_id(s@),
{
    near_sdk::AccountId::validate(s).is_ok()
}

/// A validated account identifier.
#[derive(Debug)]
pub struct AccountId {
    id: String,
}

impl View for AccountId {
    type V = Seq<char>;

    closed spec fn view(&self) -> Seq<char> {
        self.id@
    }
}

impl AccountId {
    #[verifier::type_invariant]
    spec fn well_formed(self) -> bool {
        valid_account_id(self.id@)
    }

    /// Accepts `s` exactly when it is a valid account identifier.
    pub fn parse(s: &str) -> (r: Option<AccountId>)
        ensures
            r is Some <==> valid_account_id(s@),
            r matches Some(a) ==> a@ == s@,
    {
        if near_validate(s) {
            Some(AccountId { id: s.to_owned() })
        } else {
            None
        }
    }

    /// The identifier as text.  Every identifier is valid, so the caller
    /// learns the shape of the text along with it.
    pub fn as_str(&self) -> (s: &str)
        ensures
            s@ == self@,
            valid_account_id(self@),
    {
        proof {
            use_type_invariant(self);
        }
        self.id.as_str()
    }

    /// Whether two identifiers are the same name.
    pub fn equals(&self, other: &AccountId) -> (r: bool)
        ensures
            r == (self@ == other@),
    {
        self.id == other.id
    }

    /// The identifier as an owned string.
    pub fn to_string(&self) -> (s: String)
        ensures
            s@ == self@,
    {
        self.id.clone()
    }
}

impl Clone for AccountId {
    fn clone(&self) -> (r: Self)
        ensures
            r@ == self@,
    {
        proof {
            use_type_invariant(self);
        }
        AccountId { id: self.id.clone() }
    }
}

impl PartialEq for AccountId {
    fn eq(&self, other: &AccountId) -> (r: bool) {
        self.id == other.id
    }
}

impl vstd::std_specs::cmp::PartialEqSpecImpl for AccountId {
    open spec fn obeys_eq_spec() -> bool {
        true
    }

    open spec fn eq_spec(&self, other: &AccountId) -> bool {
        self@ == other@
    }
}

impl Eq for AccountId {}

} // verus!
