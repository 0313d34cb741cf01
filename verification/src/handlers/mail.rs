//! Request and response shapes of the mail endpoints.
use vstd::prelude::*;

verus! {

pub struct ContactFormResponse {
    pub message: String,
}

pub struct ReceiveContactForm {
    pub name: String,
    pub email: String,
    pub content: String,
}

} // verus!
