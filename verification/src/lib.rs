use vstd::prelude::*;

pub mod admin;
pub mod auth;
pub mod email;
pub mod laws;
pub mod models;
pub mod multipart;
pub mod order;
pub mod outside;
pub mod pages;
pub mod parse;
pub mod response;
pub mod seed;
pub mod store;

verus! {

/// A checkbox-style form value is considered set when any value at all
/// was submitted for it, regardless of what the value is. This is the
/// coercion every boolean-like form field goes through.
pub open spec fn checkbox_set(value: Option<String>) -> bool {
    value is Some
}

} // verus!
