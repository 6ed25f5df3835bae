//! Product listings as clients send and receive them.

use crate::models::user::MinUserReturnDto;
use sea_orm::prelude::Decimal;
use vstd::prelude::*;

verus! {

/// `rust_decimal::Decimal`, which sea-orm re-exports for numeric columns: an
/// exact decimal number. Prices and coordinates are carried through
/// untouched, so nothing is claimed about its contents.
#[verifier::external_type_specification]
#[verifier::external_body]
pub struct ExDecimal(sea_orm::prelude::Decimal);

/// `Decimal` is `Copy`; its derived `clone` returns the same number.
pub assume_specification[ <sea_orm::prelude::Decimal as Clone>::clone ](
    number: &sea_orm::prelude::Decimal,
) -> (copy: sea_orm::prelude::Decimal)
    ensures
        copy == *number,
;

/// The client-supplied part of a listing: the body of a create or an update.
#[derive(Debug, Clone, PartialEq)]
pub struct ProductDetails {
    pub description: String,
    pub title: String,
    pub price: Decimal,
    pub country: String,
    pub state: String,
    pub city: String,
    pub zip: String,
    pub latitude: Option<Decimal>,
    pub longitude: Option<Decimal>,
}

/// A listing as it is read back, with its owner.
#[derive(Debug, Clone, PartialEq)]
pub struct ProductReturn {
    pub title: String,
    pub description: String,
    pub price: Decimal,
    pub created_by: MinUserReturnDto,
}

} // verus!
