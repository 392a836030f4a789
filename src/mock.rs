//! Mocked contracts: message handlers keyed by selector, and the registry that says which
//! address is served by which mock.

use vstd::prelude::*;
use vstd::bytes::{spec_u64_to_le_bytes, u64_to_le_bytes};
use crate::byte_map::ByteMap;
use crate::primitives::{Address, Salt, Selector};
use crate::record::InstantiateOutcome;

verus! {

/// A mocked contract: one handler per message selector.
///
/// `H` is the host-side handler type, a function from the raw input that follows the
/// selector to the raw output.
pub struct ContractMock<H> {
    messages: ByteMap<4, H>,
}

impl<H> View for ContractMock<H> {
    type V = Map<Selector, H>;

    closed spec fn view(&self) -> Map<Selector, H> {
        self.messages@
    }
}

impl<H> ContractMock<H> {
    pub closed spec fn wf(&self) -> bool {
        self.messages.wf()
    }

    /// A mock without any message.
    pub fn new() -> (r: ContractMock<H>)
        ensures
            r.wf(),
            r@ == Map::<Selector, H>::empty(),
    {
        ContractMock { messages: ByteMap::new() }
    }

    /// This mock with `handler` serving the message `selector` (replacing an earlier one).
    pub fn with_message(self, selector: Selector, handler: H) -> (r: ContractMock<H>)
        requires
            self.wf(),
        ensures
            r.wf(),
            r@ == self@.insert(selector, handler),
    {
        let mut this = self;
        this.messages.insert(selector, handler);
        this
    }

    /// The handler of the message `selector`, if the mock has one.
    pub fn message(&self, selector: &Selector) -> (r: Option<&H>)
        requires
            self.wf(),
        ensures
            match r {
                Some(h) => self@.contains_key(*selector) && *h == self@[*selector],
                None => !self@.contains_key(*selector),
            },
    {
        self.messages.get(selector)
    }
}

/// The salt derived from `nonce`: the nonce little-endian in the eight lowest bytes, all
/// other bytes zero.
pub open spec fn salt_for(nonce: u64) -> Seq<u8> {
    spec_u64_to_le_bytes(nonce).add(Seq::new(24, |i: int| 0u8))
}

/// Which addresses are mocked, and by which mock.
pub struct MockRegistry<H> {
    mocked_contracts: ByteMap<20, ContractMock<H>>,
    nonce: u64,
}

impl<H> MockRegistry<H> {
    pub closed spec fn wf(&self) -> bool {
        &&& self.mocked_contracts.wf()
        &&& forall|a: Address| #[trigger] self.mocked_contracts@.contains_key(a)
            ==> self.mocked_contracts@[a].wf()
    }

    /// The mock registered at each address.
    pub closed spec fn mocks(&self) -> Map<Address, ContractMock<H>> {
        self.mocked_contracts@
    }

    /// How many salts have been handed out.
    pub closed spec fn nonce(&self) -> u64 {
        self.nonce
    }

    /// An empty registry.
    pub fn new() -> (r: MockRegistry<H>)
        ensures
            r.wf(),
            r.mocks() == Map::<Address, ContractMock<H>>::empty(),
            r.nonce() == 0,
    {
        MockRegistry { mocked_contracts: ByteMap::new(), nonce: 0 }
    }

    /// How many salts have been handed out.
    pub fn current_nonce(&self) -> (r: u64)
        ensures
            r == self.nonce(),
    {
        self.nonce
    }

    /// The salt for the next mock deployment. Each call advances the nonce, so that no two
    /// mocks deployed by the same account get the same address.
    pub fn salt(&mut self) -> (r: Salt)
        requires
            old(self).wf(),
            old(self).nonce() < u64::MAX,
        ensures
            final(self).wf(),
            final(self).nonce() == old(self).nonce() + 1,
            final(self).mocks() == old(self).mocks(),
            r@ == salt_for(final(self).nonce()),
    {
        self.nonce = self.nonce + 1;
        let bytes = u64_to_le_bytes(self.nonce);
        let mut salt: Salt = [0u8; 32];
        let mut i: usize = 0;
        while i < 8
            invariant
                i <= 8,
                bytes@ == spec_u64_to_le_bytes(self.nonce),
                bytes@.len() == 8,
                salt@.len() == 32,
                forall|j: int| 0 <= j < i ==> salt@[j] == bytes@[j],
                forall|j: int| 8 <= j < 32 ==> salt@[j] == 0,
            decreases 8 - i,
        {
            salt[i] = bytes[i];
            i += 1;
        }
        proof {
            assert(salt@ =~= salt_for(self.nonce));
        }
        salt
    }

    /// Registers `mock` for `address`; returns the mock registered there before, if any.
    pub fn register(&mut self, address: Address, mock: ContractMock<H>) -> (r: Option<ContractMock<H>>)
        requires
            old(self).wf(),
            mock.wf(),
        ensures
            final(self).wf(),
            final(self).mocks() == old(self).mocks().insert(address, mock),
            final(self).nonce() == old(self).nonce(),
            r == (if old(self).mocks().contains_key(address) {
                Some(old(self).mocks()[address])
            } else {
                None
            }),
    {
        self.mocked_contracts.insert(address, mock)
    }

    /// Takes in the deployment of the body standing in for `mock`: once it is instantiated,
    /// its address is served by `mock` and returned. Any other outcome leaves the registry
    /// as it was and returns `None`; the body is fixed and valid, so that only happens when
    /// the sandbox is misconfigured.
    pub fn register_deployed(&mut self, outcome: &InstantiateOutcome, mock: ContractMock<H>) -> (r: Option<Address>)
        requires
            old(self).wf(),
            mock.wf(),
        ensures
            final(self).wf(),
            final(self).nonce() == old(self).nonce(),
            match *outcome {
                InstantiateOutcome::Instantiated(a) => r == Some(a) && final(self).mocks()
                    == old(self).mocks().insert(a, mock),
                _ => r is None && final(self).mocks() == old(self).mocks(),
            },
    {
        match outcome {
            InstantiateOutcome::Instantiated(address) => {
                let _ = self.register(*address, mock);
                Some(*address)
            },
            _ => None,
        }
    }

    /// The mock registered for `address`, if any.
    pub fn get(&self, address: &Address) -> (r: Option<&ContractMock<H>>)
        requires
            self.wf(),
        ensures
            match r {
                Some(m) => self.mocks().contains_key(*address) && *m == self.mocks()[*address]
                    && m.wf(),
                None => !self.mocks().contains_key(*address),
            },
    {
        self.mocked_contracts.get(address)
    }
}

/// Distinct nonces give distinct salts.
pub proof fn lemma_salt_injective(a: u64, b: u64)
    requires
        a != b,
    ensures
        salt_for(a) != salt_for(b),
{
    vstd::bytes::lemma_auto_spec_u64_to_from_le_bytes();
    if salt_for(a) == salt_for(b) {
        assert(salt_for(a).subrange(0, 8) =~= spec_u64_to_le_bytes(a));
        assert(salt_for(b).subrange(0, 8) =~= spec_u64_to_le_bytes(b));
    }
}

/// The salt of the `i`-th of consecutive mock deployments (counting from zero) that
/// start when the nonce is `start`.
pub open spec fn nth_salt(start: u64, i: nat) -> Seq<u8> {
    salt_for((start + i + 1) as u64)
}

/// The salts of `n` consecutive mock deployments that start at nonce `start` are pairwise
/// distinct; from a new registry (`start == 0`) that holds for every `n` a `u64` nonce
/// can count to.
pub proof fn lemma_consecutive_salts_distinct(start: u64, n: nat)
    requires
        start + n <= u64::MAX,
    ensures
        forall|i: nat, j: nat|
            i < j < n ==> #[trigger] nth_salt(start, i) != #[trigger] nth_salt(start, j),
{
    assert forall|i: nat, j: nat| i < j < n implies #[trigger] nth_salt(start, i)
        != #[trigger] nth_salt(start, j) by {
        lemma_salt_injective((start + i + 1) as u64, (start + j + 1) as u64);
    }
}

} // verus!
