//! Price records as the remote price service reports them.

use vstd::prelude::*;

verus! {

/// The body of a price response.
#[derive(Debug)]
pub struct PriceApiResponse {
    pub payload: PricesResponse,
}

/// The prices of a response.
#[derive(Debug)]
pub struct PricesResponse {
    pub prices: Vec<Price>,
}

/// One price offer.
#[derive(Debug)]
pub struct Price {
    pub total_price_in_cents: i32,
    pub price_per_adult_in_cents: i32,
    pub discount_in_cents: Option<i32>,
    pub operator_name: Option<String>,
    pub discount_type: String,
    pub travel_class: String,
    pub display_name: String,
    pub is_best_option: bool,
}

/// A price offer as contracts see it.
pub struct PriceView {
    pub total_price_in_cents: i32,
    pub price_per_adult_in_cents: i32,
    pub discount_in_cents: Option<i32>,
    pub operator_name: Option<Seq<char>>,
    pub discount_type: Seq<char>,
    pub travel_class: Seq<char>,
    pub display_name: Seq<char>,
    pub is_best_option: bool,
}

impl View for Price {
    type V = PriceView;

    open spec fn view(&self) -> PriceView {
        PriceView {
            total_price_in_cents: self.total_price_in_cents,
            price_per_adult_in_cents: self.price_per_adult_in_cents,
            discount_in_cents: self.discount_in_cents,
            operator_name: match self.operator_name {
                Some(name) => Some(name@),
                None => None,
            },
            discount_type: self.discount_type@,
            travel_class: self.travel_class@,
            display_name: self.display_name@,
            is_best_option: self.is_best_option,
        }
    }
}

impl View for PriceApiResponse {
    type V = Seq<PriceView>;

    open spec fn view(&self) -> Seq<PriceView> {
        self.payload.prices@.map_values(|p: Price| p@)
    }
}

} // verus!
