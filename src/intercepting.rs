//! The bridge the sandbox consults at every contract entry: if the target address is
//! mocked, the call is routed to the mock's handler instead of the contract's code.

use vstd::prelude::*;
use crate::errors::MockingError;
use crate::mock::{ContractMock, MockRegistry};
use crate::primitives::{Address, EntryPoint, Selector};

verus! {

/// What the sandbox should do with a call.
pub enum Interception<'a, H> {
    /// No mock is registered at the address: the sandbox executes the contract itself.
    Proceed,
    /// Run `handler` on `input` (the call data after the selector) and return its output
    /// in place of an execution.
    Dispatch { handler: &'a H, input: Vec<u8> },
    /// The address is mocked but the call cannot be routed; it fails.
    Rejected(MockingError),
}

/// The selector at the front of `input`.
pub open spec fn selector_of(input: Seq<u8>) -> Selector
    recommends
        input.len() >= 4,
{
    [input[0], input[1], input[2], input[3]]
}

/// Decides how the sandbox handles a call of `address` with `input`. Constructors and
/// messages are routed alike: a mocked address only ever runs its mock. The handler itself
/// is run by the caller, after it has let go of the registry.
pub fn intercept_call<'a, H>(
    registry: &'a MockRegistry<H>,
    address: &Address,
    entry_point: EntryPoint,
    input: &[u8],
) -> (r: Interception<'a, H>)
    requires
        registry.wf(),
    ensures
        !registry.mocks().contains_key(*address) ==> r is Proceed,
        registry.mocks().contains_key(*address) ==> {
            if input@.len() < 4 {
                r == Interception::<H>::Rejected(MockingError::MissingSelector)
            } else if routed_handler(registry.mocks(), *address, input@) is Some {
                r matches Interception::Dispatch { handler, input: rest } && Some(*handler)
                    == routed_handler(registry.mocks(), *address, input@) && rest@
                    == input@.subrange(4, input@.len() as int)
            } else {
                r == Interception::<H>::Rejected(
                    MockingError::MessageNotFound(selector_of(input@)),
                )
            }
        },
{
    match registry.get(address) {
        None => Interception::Proceed,
        Some(mock) => {
            if input.len() < 4 {
                return Interception::Rejected(MockingError::MissingSelector);
            }
            let selector: Selector = [input[0], input[1], input[2], input[3]];
            match mock.message(&selector) {
                None => Interception::Rejected(MockingError::MessageNotFound(selector)),
                Some(handler) => {
                    let mut rest: Vec<u8> = Vec::new();
                    let mut i: usize = 4;
                    while i < input.len()
                        invariant
                            4 <= i <= input@.len(),
                            rest@ == input@.subrange(4, i as int),
                        decreases input@.len() - i,
                    {
                        rest.push(input[i]);
                        i += 1;
                    }
                    Interception::Dispatch { handler, input: rest }
                },
            }
        },
    }
}

/// What the sandbox returns for an intercepted call.
#[derive(Clone, Debug, PartialEq, Eq)]
pub struct MockedReturn {
    /// Whether the call counts as reverted.
    pub reverted: bool,
    /// The handler's output, unchanged.
    pub data: Vec<u8>,
}

/// The tag that starts an encoded message result whose value is an error.
pub const ERR_TAG: u8 = 1;

/// Turns a handler's output into what the sandbox returns: the output itself, flagged as
/// reverted when it encodes an error result (its first byte is the `Err` tag).
pub fn mocked_return(output: Result<Vec<u8>, MockingError>) -> (r: Result<MockedReturn, MockingError>)
    ensures
        match output {
            Ok(data) => r matches Ok(ret) && ret.data == data && ret.reverted == (data@.len()
                > 0 && data@[0] == ERR_TAG),
            Err(e) => r == Err::<MockedReturn, MockingError>(e),
        },
{
    match output {
        Ok(data) => {
            let reverted = data.len() > 0 && data[0] == ERR_TAG;
            Ok(MockedReturn { reverted, data })
        },
        Err(e) => Err(e),
    }
}

/// The handler a call of `address` with `input` is routed to: that of the input's selector
/// in the mock registered at `address`, if there is one.
pub open spec fn routed_handler<H>(
    mocks: Map<Address, ContractMock<H>>,
    address: Address,
    input: Seq<u8>,
) -> Option<H> {
    if mocks.contains_key(address) && input.len() >= 4 && mocks[address]@.contains_key(
        selector_of(input),
    ) {
        Some(mocks[address]@[selector_of(input)])
    } else {
        None
    }
}

/// Once `mock` is registered at `address`, a call of `address` that starts with a selector
/// the mock serves is routed to that selector's handler, with the rest of the input; the
/// address being mocked, the sandbox never executes code there.
pub proof fn lemma_mock_transparency<H>(
    before: MockRegistry<H>,
    after: MockRegistry<H>,
    address: Address,
    mock: ContractMock<H>,
    selector: Selector,
    args: Seq<u8>,
)
    requires
        after.mocks() == before.mocks().insert(address, mock),
        mock@.contains_key(selector),
    ensures
        after.mocks().contains_key(address),
        routed_handler(after.mocks(), address, selector@ + args) == Some(mock@[selector]),
        (selector@ + args).subrange(4, (selector@ + args).len() as int) == args,
{
    let input = selector@ + args;
    assert(selector_of(input) =~= selector);
    assert(input.subrange(4, input.len() as int) =~= args);
}

/// Registering a mock at one address leaves the interception of every other address as it
/// was.
pub proof fn lemma_mock_isolation<H>(
    before: MockRegistry<H>,
    after: MockRegistry<H>,
    mocked: Address,
    mock: ContractMock<H>,
    other: Address,
)
    requires
        after.mocks() == before.mocks().insert(mocked, mock),
        other != mocked,
    ensures
        after.mocks().contains_key(other) == before.mocks().contains_key(other),
        before.mocks().contains_key(other) ==> after.mocks()[other] == before.mocks()[other],
{
}

} // verus!
