//! The four value types the form validates: username, email, optional
//! age, and a plain address string.

use vstd::prelude::*;
use vstd::string::StrSliceExecFns;

use crate::field::Validatable;

verus! {

/// A username, acceptable from three characters up.
#[derive(Clone, Debug)]
pub struct Username(pub String);

/// An email address, checked against the shape in `crate::email`.
#[derive(Clone, Debug)]
pub struct Email(pub String);

impl Validatable for Username {
    open spec fn eq_spec(&self, other: &Self) -> bool {
        self.0@ == other.0@
    }

    open spec fn valid_spec(&self) -> bool {
        self.0@.len() >= 3
    }

    open spec fn error_spec(&self) -> Option<Seq<char>> {
        if self.0@.len() == 0 {
            Some("Username cannot be empty"@)
        } else if self.0@.len() < 3 {
            Some("Username must be at least 3 characters"@)
        } else {
            None
        }
    }

    proof fn lemma_eq_reflexive(&self) {
    }

    fn clone_value(&self) -> (r: Self) {
        Username(self.0.clone())
    }

    fn same_value(&self, other: &Self) -> (r: bool) {
        self.0 == other.0
    }

    fn is_valid(&self) -> (r: bool) {
        self.0.as_str().unicode_len() >= 3
    }

    fn error_message(&self) -> (r: Option<String>) {
        let n = self.0.as_str().unicode_len();
        if n == 0 {
            Some("Username cannot be empty".to_owned())
        } else if n < 3 {
            Some("Username must be at least 3 characters".to_owned())
        } else {
            None
        }
    }
}

impl Validatable for Email {
    open spec fn eq_spec(&self, other: &Self) -> bool {
        self.0@ == other.0@
    }

    open spec fn valid_spec(&self) -> bool {
        self.0@.len() > 0 && crate::email::email_match(self.0@)
    }

    open spec fn error_spec(&self) -> Option<Seq<char>> {
        if self.0@.len() == 0 {
            Some("Email cannot be empty"@)
        } else if !crate::email::email_match(self.0@) {
            Some("Please enter a valid email address (e.g. user@example.com)"@)
        } else {
            None
        }
    }

    proof fn lemma_eq_reflexive(&self) {
    }

    fn clone_value(&self) -> (r: Self) {
        Email(self.0.clone())
    }

    fn same_value(&self, other: &Self) -> (r: bool) {
        self.0 == other.0
    }

    fn is_valid(&self) -> (r: bool) {
        !self.0.as_str().is_empty() && crate::email::is_email(self.0.as_str())
    }

    fn error_message(&self) -> (r: Option<String>) {
        if self.0.as_str().is_empty() {
            Some("Email cannot be empty".to_owned())
        } else if !crate::email::is_email(self.0.as_str()) {
            Some("Please enter a valid email address (e.g. user@example.com)".to_owned())
        } else {
            None
        }
    }
}

/// The optional age: unset is acceptable, a set value must lie in
/// `[18, 120]`.
impl Validatable for Option<u32> {
    open spec fn eq_spec(&self, other: &Self) -> bool {
        *self == *other
    }

    open spec fn valid_spec(&self) -> bool {
        match *self {
            Some(a) => 18 <= a && a <= 120,
            None => true,
        }
    }

    open spec fn error_spec(&self) -> Option<Seq<char>> {
        match *self {
            Some(a) => if a < 18 || a > 120 {
                Some("Age must be between 18 and 120"@)
            } else {
                None
            },
            None => None,
        }
    }

    proof fn lemma_eq_reflexive(&self) {
    }

    fn clone_value(&self) -> (r: Self) {
        match self {
            Some(a) => Some(*a),
            None => None,
        }
    }

    fn same_value(&self, other: &Self) -> (r: bool) {
        match (self, other) {
            (Some(a), Some(b)) => *a == *b,
            (None, None) => true,
            _ => false,
        }
    }

    fn is_valid(&self) -> (r: bool) {
        match self {
            Some(a) => 18 <= *a && *a <= 120,
            None => true,
        }
    }

    fn error_message(&self) -> (r: Option<String>) {
        match self {
            Some(a) => if *a < 18 || *a > 120 {
                Some("Age must be between 18 and 120".to_owned())
            } else {
                None
            },
            None => None,
        }
    }
}

/// The address value: a plain string, acceptable when non-empty.
impl Validatable for String {
    open spec fn eq_spec(&self, other: &Self) -> bool {
        self@ == other@
    }

    open spec fn valid_spec(&self) -> bool {
        self@.len() > 0
    }

    open spec fn error_spec(&self) -> Option<Seq<char>> {
        if self@.len() == 0 {
            Some("Address cannot be empty"@)
        } else {
            None
        }
    }

    proof fn lemma_eq_reflexive(&self) {
    }

    fn clone_value(&self) -> (r: Self) {
        self.clone()
    }

    fn same_value(&self, other: &Self) -> (r: bool) {
        *self == *other
    }

    fn is_valid(&self) -> (r: bool) {
        !self.as_str().is_empty()
    }

    fn error_message(&self) -> (r: Option<String>) {
        if self.as_str().is_empty() {
            Some("Address cannot be empty".to_owned())
        } else {
            None
        }
    }
}

} // verus!
