//! The exchange rates of one reply of the provider.

use vstd::prelude::*;
use vstd::hash_map::StringHashMap;
use crate::number::Number;

verus! {

/// The rates of one reply: a mapping from currency code to rate, each code
/// held once. Codes are compared exactly, letter case included.
pub struct ConversionRates {
    rates: StringHashMap<Number>,
}

impl View for ConversionRates {
    type V = Map<Seq<char>, Number>;

    closed spec fn view(&self) -> Map<Seq<char>, Number> {
        self.rates@
    }
}

impl ConversionRates {
    /// Creates a mapping without any rate.
    pub fn new() -> (rates: Self)
        ensures
            rates@ == Map::<Seq<char>, Number>::empty(),
    {
        ConversionRates { rates: StringHashMap::new() }
    }

    /// Sets the rate of `code`, replacing the rate it had, if any. Every
    /// other code keeps its rate.
    pub fn insert(&mut self, code: String, rate: Number)
        ensures
            final(self)@ == old(self)@.insert(code@, rate),
    {
        self.rates.insert(code, rate);
    }

    /// Returns the rate of `code`, or `None` where the mapping has none for
    /// exactly this code.
    pub fn get(&self, code: &str) -> (rate: Option<Number>)
        ensures
            rate == (if self@.contains_key(code@) {
                Some(self@[code@])
            } else {
                None
            }),
    {
        match self.rates.get(code) {
            Some(rate) => Some(*rate),
            None => None,
        }
    }
}

} // verus!
