//! Call spans: what an observer learns of every contract call, mocked or not.

use vstd::prelude::*;
use crate::primitives::{Address, EntryPoint};

verus! {

/// A contract call as it starts: opened just before the call is made, and closed by
/// [`DrinkCallSpan::after_call`] once it is done.
#[derive(Clone, Debug, PartialEq, Eq)]
pub struct DrinkCallSpan {
    /// The address of the contract that is called.
    pub contract_address: Address,
    /// The entry point (constructor or message).
    pub entry_point: EntryPoint,
    /// The input data of the call.
    pub input_data: Vec<u8>,
}

/// A finished contract call, as an observer receives it.
#[derive(Clone, Debug, PartialEq, Eq)]
pub struct CallTrace {
    pub contract_address: Address,
    /// Whether the call entered a message (rather than a constructor).
    pub is_call: bool,
    pub input_data: Vec<u8>,
    pub output_data: Vec<u8>,
}

/// Opens the span of a call.
pub fn new_call_span(contract_address: &Address, entry_point: EntryPoint, input_data: &[u8]) -> (r: DrinkCallSpan)
    ensures
        r.contract_address == *contract_address,
        r.entry_point == entry_point,
        r.input_data@ == input_data@,
{
    DrinkCallSpan { contract_address: *contract_address, entry_point, input_data: vstd::slice::slice_to_vec(input_data) }
}

impl DrinkCallSpan {
    /// Closes the span with the call's output.
    pub fn after_call(self, output: &[u8]) -> (r: CallTrace)
        ensures
            r.contract_address == self.contract_address,
            r.is_call == (self.entry_point == EntryPoint::Call),
            r.input_data == self.input_data,
            r.output_data@ == output@,
    {
        let is_call = match self.entry_point {
            EntryPoint::Call => true,
            EntryPoint::Constructor => false,
        };
        CallTrace {
            contract_address: self.contract_address,
            is_call,
            input_data: self.input_data,
            output_data: vstd::slice::slice_to_vec(output),
        }
    }
}

} // verus!
