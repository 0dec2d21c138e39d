//! Declarations of the filter-engine crate's opaque types, so that values of
//! them can be held and passed through verified code.

use vstd::prelude::*;

use adblock::Engine as AdblockEngine;
use adblock::FilterSet as AdblockFilterSet;
use adblock::request::Request as AdblockRequest;

verus! {

#[verifier::external_type_specification]
#[verifier::external_body]
pub struct ExAdblockEngine(AdblockEngine);

#[verifier::external_type_specification]
#[verifier::external_body]
pub struct ExAdblockRequest(AdblockRequest);

#[verifier::external_type_specification]
#[verifier::external_body]
pub struct ExFilterSet(AdblockFilterSet);

} // verus!
