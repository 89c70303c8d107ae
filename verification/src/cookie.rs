//! Session cookies as they are kept in a configuration.

use vstd::prelude::*;

verus! {

/// One cookie. Only `name` and `value` are required.
#[derive(Clone, Debug, PartialEq, Eq, Default)]
#[allow(non_snake_case)]
pub struct Cookie {
    pub name: String,
    pub value: String,
    pub domain: Option<String>,
    pub path: Option<String>,
    pub expires: Option<i64>,
    pub httpOnly: Option<bool>,
    pub secure: Option<bool>,
}

} // verus!
