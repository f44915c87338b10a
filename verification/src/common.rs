//! Shared value types of the remote payments surface.

use vstd::prelude::*;

verus! {

/// Where an order or subscription originated.
#[derive(Clone, Debug)]
pub struct Source {
    pub name: String,
}

/// A money amount in the smallest denomination of its currency: cents
/// for USD, so 1295 stands for $12.95.
#[derive(Clone, Debug)]
pub struct Price {
    pub amount: u64,
    pub currency: String,
}

impl Price {
    /// The whole-unit part of the amount: dollars for USD.
    pub fn whole_units(&self) -> (r: u64)
        ensures
            r == self.amount / 100,
    {
        self.amount / 100
    }

    /// The fractional part of the amount: cents past the dollar for USD.
    pub fn fractional_units(&self) -> (r: u64)
        ensures
            r == self.amount % 100,
            r < 100,
    {
        self.amount % 100
    }
}

/// How a catalog phase is priced: a static price held in either the
/// `price` or the `price_money` field, depending on the platform version.
#[derive(Clone, Debug)]
pub struct Pricing {
    pub type_: String,
    pub price: Option<Price>,
    pub price_money: Option<Price>,
}

impl Pricing {
    /// The amount in minor units, preferring `price_money` over `price`
    /// when both are present.
    pub fn amount_minor(&self) -> (r: Option<u64>)
        ensures
            match self.price_money {
                Some(p) => r == Some(p.amount),
                None => match self.price {
                    Some(p) => r == Some(p.amount),
                    None => r is None,
                },
            },
    {
        match &self.price_money {
            Some(p) => Some(p.amount),
            None => match &self.price {
                Some(p) => Some(p.amount),
                None => None,
            },
        }
    }
}

/// A customer's email identity as reported by the invoice listing.
#[derive(Clone, Debug)]
pub struct CustomerEmailInfo {
    pub email_address: String,
    pub family_name: String,
    pub given_name: String,
}

} // verus!
