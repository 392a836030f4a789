//! The append-only history of a session: what each deployment and call returned and
//! which events it emitted.
//!
//! By a *result* we mean the full outcome the sandbox reported (including the revert flag
//! and the failure detail); by a *return* the payload alone: the address of a newly
//! instantiated contract, or the bytes a message returned.

use vstd::prelude::*;
use crate::primitives::{Address, DispatchFailure, Hash32};
use crate::transcoding::{
    compact_prefix, decoded_event_of, event_signatures_of, scale_encode_bytes, signature_views,
    transcoder_decode_event, transcoder_event_signatures,
};

verus! {

/// One event of the sandbox's event log.
#[derive(Clone, Debug, PartialEq, Eq)]
pub enum Event {
    /// An event emitted by a contract, with its topics and its encoded body.
    ContractEmitted { contract: Address, topics: Vec<Hash32>, data: Vec<u8> },
    /// An event of another runtime module, in its encoded form.
    Runtime(Vec<u8>),
}

/// What the sandbox reported for a contract instantiation.
#[derive(Clone, Debug, PartialEq, Eq)]
pub enum InstantiateOutcome {
    /// The contract was instantiated at this address.
    Instantiated(Address),
    /// The constructor reverted, with this payload.
    Reverted(Vec<u8>),
    /// The sandbox could not attempt the instantiation.
    Failed(DispatchFailure),
}

/// What the sandbox reported for a contract call.
#[derive(Clone, Debug, PartialEq, Eq)]
pub enum ExecOutcome {
    /// The message returned this payload.
    Returned(Vec<u8>),
    /// The message reverted, with this payload.
    Reverted(Vec<u8>),
    /// The sandbox could not attempt the call.
    Failed(DispatchFailure),
}

/// The contract events of a sequence of events, in order: the bodies of `ContractEmitted`.
pub open spec fn contract_data(events: Seq<Event>) -> Seq<Seq<u8>>
    decreases events.len(),
{
    if events.len() == 0 {
        Seq::empty()
    } else {
        let rest = contract_data(events.drop_last());
        match events.last() {
            Event::ContractEmitted { data, .. } => rest.push(data@),
            Event::Runtime(_) => rest,
        }
    }
}

/// The addresses of the successful instantiations among `results`, in order.
pub open spec fn instantiated_addresses(results: Seq<InstantiateOutcome>) -> Seq<Address>
    decreases results.len(),
{
    if results.len() == 0 {
        Seq::empty()
    } else {
        let rest = instantiated_addresses(results.drop_last());
        match results.last() {
            InstantiateOutcome::Instantiated(a) => rest.push(a),
            _ => rest,
        }
    }
}

/// The number of instantiations among `results` that did not succeed.
pub open spec fn failed_instantiations(results: Seq<InstantiateOutcome>) -> nat
    decreases results.len(),
{
    if results.len() == 0 {
        0
    } else {
        let rest = failed_instantiations(results.drop_last());
        match results.last() {
            InstantiateOutcome::Instantiated(_) => rest,
            _ => rest + 1,
        }
    }
}

/// The payloads of the calls among `results` that returned normally, in order.
pub open spec fn returned_payloads(results: Seq<ExecOutcome>) -> Seq<Seq<u8>>
    decreases results.len(),
{
    if results.len() == 0 {
        Seq::empty()
    } else {
        let rest = returned_payloads(results.drop_last());
        match results.last() {
            ExecOutcome::Returned(d) => rest.push(d@),
            _ => rest,
        }
    }
}

/// Whether `topic` is one of the declared signature topics `signatures`.
pub open spec fn is_known_signature(topic: Seq<u8>, signatures: Seq<Option<Seq<u8>>>) -> bool {
    exists|i: int| 0 <= i < signatures.len() && #[trigger] signatures[i] == Some(topic)
}

/// The contract events of `events` whose first topic is one of `signatures`, in order:
/// for each, that topic and the event's body.
pub open spec fn signed_event_bodies(events: Seq<Event>, signatures: Seq<Option<Seq<u8>>>) -> Seq<(Seq<u8>, Seq<u8>)>
    decreases events.len(),
{
    if events.len() == 0 {
        Seq::empty()
    } else {
        let rest = signed_event_bodies(events.drop_last(), signatures);
        match events.last() {
            Event::ContractEmitted { topics, data, .. } => if topics.len() > 0
                && is_known_signature(topics[0]@, signatures) {
                rest.push((topics[0]@, data@))
            } else {
                rest
            },
            Event::Runtime(_) => rest,
        }
    }
}

/// The events `transcoder` decodes from `signed` (pairs of a signature topic and a body),
/// in order: each body is handed over as the runtime stores it, in its SCALE encoding.
/// Bodies it cannot decode are left out, and so are bodies too long for that encoding.
pub open spec fn decoded_events(
    transcoder: contract_transcode::ContractMessageTranscoder,
    signed: Seq<(Seq<u8>, Seq<u8>)>,
) -> Seq<contract_transcode::Value>
    decreases signed.len(),
{
    if signed.len() == 0 {
        Seq::empty()
    } else {
        let rest = decoded_events(transcoder, signed.drop_last());
        let (signature, body) = signed.last();
        if body.len() <= u32::MAX {
            match decoded_event_of(transcoder, signature, compact_prefix(body.len()) + body) {
                Some(v) => rest.push(v),
                None => rest,
            }
        } else {
            rest
        }
    }
}

/// Whether the bytes of `signature` are those of `topic`.
fn matches_topic(signature: &Vec<u8>, topic: &Hash32) -> (r: bool)
    ensures
        r == (signature@ == topic@),
{
    if signature.len() != 32 {
        return false;
    }
    let mut i: usize = 0;
    while i < 32
        invariant
            i <= 32,
            signature@.len() == 32,
            topic@.len() == 32,
            forall|j: int| 0 <= j < i ==> signature@[j] == topic@[j],
        decreases 32 - i,
    {
        if signature[i] != topic[i] {
            return false;
        }
        i += 1;
    }
    proof {
        assert(signature@ =~= topic@);
    }
    true
}

/// The position of the signature `topic` in `signatures`, if it is declared there.
fn find_signature(signatures: &Vec<Option<Vec<u8>>>, topic: &Hash32) -> (r: Option<usize>)
    ensures
        match r {
            Some(i) => i < signatures@.len() && signature_views(signatures@)[i as int] == Some(topic@),
            None => !is_known_signature(topic@, signature_views(signatures@)),
        },
{
    let mut i: usize = 0;
    while i < signatures.len()
        invariant
            i <= signatures@.len(),
            forall|j: int| 0 <= j < i ==> #[trigger] signature_views(signatures@)[j] != Some(topic@),
        decreases signatures@.len() - i,
    {
        match &signatures[i] {
            Some(sig) => {
                if matches_topic(sig, topic) {
                    return Some(i);
                }
            },
            None => {},
        }
        i += 1;
    }
    None
}

/// The events emitted during one deployment or call.
#[derive(Debug)]
pub struct EventBatch {
    events: Vec<Event>,
}

impl View for EventBatch {
    type V = Seq<Event>;

    closed spec fn view(&self) -> Seq<Event> {
        self.events@
    }
}

impl EventBatch {
    /// Wraps the events of one interaction.
    pub fn new(events: Vec<Event>) -> (r: EventBatch)
        ensures
            r@ == events@,
    {
        EventBatch { events }
    }

    /// All the events that were emitted during the interaction.
    pub fn all_events(&self) -> (r: &[Event])
        ensures
            r@ == self@,
    {
        self.events.as_slice()
    }

    /// The bodies of the events that contracts emitted during the interaction, in order.
    /// Events of other runtime modules are left out.
    pub fn contract_events(&self) -> (r: Vec<&[u8]>)
        ensures
            r@.len() == contract_data(self@).len(),
            forall|i: int| 0 <= i < r@.len() ==> (#[trigger] r@[i])@ == contract_data(self@)[i],
    {
        let mut out: Vec<&[u8]> = Vec::new();
        let mut i: usize = 0;
        while i < self.events.len()
            invariant
                i <= self.events@.len(),
                out@.len() == contract_data(self.events@.take(i as int)).len(),
                forall|j: int| 0 <= j < out@.len()
                    ==> (#[trigger] out@[j])@ == contract_data(self.events@.take(i as int))[j],
            decreases self.events@.len() - i,
        {
            proof {
                assert(self.events@.take(i + 1).drop_last() == self.events@.take(i as int));
            }
            match &self.events[i] {
                Event::ContractEmitted { data, .. } => {
                    out.push(data.as_slice());
                },
                Event::Runtime(_) => {},
            }
            i += 1;
        }
        proof {
            assert(self.events@.take(i as int) == self.events@);
        }
        out
    }

    /// The contract events whose first topic is one of the declared `signatures` (`None`
    /// stands for an anonymous event, which never matches), in order: for each, the position
    /// of the matching signature and the event's body.
    pub fn signed_events(&self, signatures: &Vec<Option<Vec<u8>>>) -> (r: Vec<(usize, &[u8])>)
        ensures
            r@.len() == signed_event_bodies(self@, signature_views(signatures@)).len(),
            forall|i: int| 0 <= i < r@.len() ==> {
                &&& (#[trigger] r@[i]).1@ == signed_event_bodies(self@, signature_views(signatures@))[i].1
                &&& r@[i].0 < signatures@.len()
                &&& signature_views(signatures@)[r@[i].0 as int]
                    == Some(signed_event_bodies(self@, signature_views(signatures@))[i].0)
            },
    {
        let ghost sigs = signature_views(signatures@);
        let mut out: Vec<(usize, &[u8])> = Vec::new();
        let mut i: usize = 0;
        while i < self.events.len()
            invariant
                i <= self.events@.len(),
                sigs == signature_views(signatures@),
                out@.len() == signed_event_bodies(self.events@.take(i as int), sigs).len(),
                forall|j: int| 0 <= j < out@.len() ==> {
                    &&& (#[trigger] out@[j]).1@ == signed_event_bodies(self.events@.take(i as int), sigs)[j].1
                    &&& out@[j].0 < signatures@.len()
                    &&& sigs[out@[j].0 as int] == Some(signed_event_bodies(self.events@.take(i as int), sigs)[j].0)
                },
            decreases self.events@.len() - i,
        {
            proof {
                assert(self.events@.take(i + 1).drop_last() == self.events@.take(i as int));
            }
            match &self.events[i] {
                Event::ContractEmitted { topics, data, .. } => {
                    if topics.len() > 0 {
                        match find_signature(signatures, &topics[0]) {
                            Some(k) => {
                                out.push((k, data.as_slice()));
                            },
                            None => {},
                        }
                    }
                },
                Event::Runtime(_) => {},
            }
            i += 1;
        }
        proof {
            assert(self.events@.take(i as int) == self.events@);
        }
        out
    }

    /// The contract events whose first topic is a signature that `transcoder`'s ABI
    /// declares, decoded by `transcoder`, in order. Events it cannot decode are left out,
    /// and so are anonymous events, which no signature identifies; when the ABI declares no
    /// signature, nothing is decoded.
    pub fn contract_events_decoded(
        &self,
        transcoder: &contract_transcode::ContractMessageTranscoder,
    ) -> (r: Vec<contract_transcode::Value>)
        ensures
            r@ == decoded_events(
                *transcoder,
                signed_event_bodies(self@, event_signatures_of(*transcoder)),
            ),
            (forall|i: int| 0 <= i < event_signatures_of(*transcoder).len()
                ==> #[trigger] event_signatures_of(*transcoder)[i] is None) ==> r@.len() == 0,
    {
        let signatures = transcoder_event_signatures(transcoder);
        let candidates = self.signed_events(&signatures);
        let ghost signed = signed_event_bodies(self@, event_signatures_of(*transcoder));
        let mut out: Vec<contract_transcode::Value> = Vec::new();
        let mut i: usize = 0;
        while i < candidates.len()
            invariant
                i <= candidates@.len(),
                candidates@.len() == signed.len(),
                signature_views(signatures@) == event_signatures_of(*transcoder),
                forall|j: int| 0 <= j < candidates@.len() ==> {
                    &&& (#[trigger] candidates@[j]).1@ == signed[j].1
                    &&& candidates@[j].0 < signatures@.len()
                    &&& signature_views(signatures@)[candidates@[j].0 as int] == Some(signed[j].0)
                },
                out@ == decoded_events(*transcoder, signed.take(i as int)),
            decreases candidates@.len() - i,
        {
            proof {
                assert(signed.take(i + 1).drop_last() == signed.take(i as int));
            }
            let (k, data) = candidates[i];
            match &signatures[k] {
                Some(signature) => {
                    if data.len() <= 4294967295 {
                        let stored = scale_encode_bytes(data);
                        match transcoder_decode_event(transcoder, signature.as_slice(), stored.as_slice()) {
                            Ok(value) => {
                                out.push(value);
                            },
                            Err(_) => {},
                        }
                    }
                },
                None => {},
            }
            i += 1;
        }
        proof {
            assert(signed.take(i as int) == signed);
            if forall|j: int| 0 <= j < event_signatures_of(*transcoder).len()
                ==> #[trigger] event_signatures_of(*transcoder)[j] is None {
                lemma_no_signature_no_events(self@, event_signatures_of(*transcoder));
            }
        }
        out
    }
}

/// Without any declared signature topic, no event is signed.
proof fn lemma_no_signature_no_events(events: Seq<Event>, signatures: Seq<Option<Seq<u8>>>)
    requires
        forall|i: int| 0 <= i < signatures.len() ==> #[trigger] signatures[i] is None,
    ensures
        signed_event_bodies(events, signatures).len() == 0,
    decreases events.len(),
{
    if events.len() > 0 {
        lemma_no_signature_no_events(events.drop_last(), signatures);
        match events.last() {
            Event::ContractEmitted { topics, .. } => {
                if topics.len() > 0 && is_known_signature(topics[0]@, signatures) {
                    let i = choose|i: int| 0 <= i < signatures.len() && #[trigger] signatures[i] == Some(topics[0]@);
                    assert(signatures[i] is None);
                }
            },
            Event::Runtime(_) => {},
        }
    }
}


/// The history of a session.
#[derive(Debug)]
pub struct Record {
    deploy_results: Vec<InstantiateOutcome>,
    deploy_returns: Vec<Address>,
    call_results: Vec<ExecOutcome>,
    call_returns: Vec<Vec<u8>>,
    event_batches: Vec<EventBatch>,
}

/// The mathematical content of a [`Record`].
pub ghost struct RecordView {
    pub deploy_results: Seq<InstantiateOutcome>,
    pub deploy_returns: Seq<Address>,
    pub call_results: Seq<ExecOutcome>,
    pub call_returns: Seq<Seq<u8>>,
    pub event_batches: Seq<Seq<Event>>,
}

impl View for Record {
    type V = RecordView;

    closed spec fn view(&self) -> RecordView {
        RecordView {
            deploy_results: self.deploy_results@,
            deploy_returns: self.deploy_returns@,
            call_results: self.call_results@,
            call_returns: self.call_returns@.map_values(|v: Vec<u8>| v@),
            event_batches: self.event_batches@.map_values(|b: EventBatch| b@),
        }
    }
}

impl RecordView {
    /// The returns are exactly the payloads of the successful results, and there is one
    /// event batch per deployment or call.
    pub open spec fn wf(self) -> bool {
        &&& self.deploy_returns == instantiated_addresses(self.deploy_results)
        &&& self.call_returns == returned_payloads(self.call_results)
        &&& self.event_batches.len() == self.deploy_results.len() + self.call_results.len()
    }

    /// This record after one more deployment with the given outcome and events.
    pub open spec fn after_deploy(self, outcome: InstantiateOutcome, events: Seq<Event>) -> RecordView {
        RecordView {
            deploy_results: self.deploy_results.push(outcome),
            deploy_returns: match outcome {
                InstantiateOutcome::Instantiated(a) => self.deploy_returns.push(a),
                _ => self.deploy_returns,
            },
            event_batches: self.event_batches.push(events),
            ..self
        }
    }

    /// This record after one more call with the given outcome and events.
    pub open spec fn after_call(self, outcome: ExecOutcome, events: Seq<Event>) -> RecordView {
        RecordView {
            call_results: self.call_results.push(outcome),
            call_returns: match outcome {
                ExecOutcome::Returned(d) => self.call_returns.push(d@),
                _ => self.call_returns,
            },
            event_batches: self.event_batches.push(events),
            ..self
        }
    }
}

impl Record {
    /// An empty record.
    pub fn new() -> (r: Record)
        ensures
            r@.deploy_results.len() == 0,
            r@.deploy_returns.len() == 0,
            r@.call_results.len() == 0,
            r@.call_returns.len() == 0,
            r@.event_batches.len() == 0,
            r@.wf(),
    {
        let r = Record {
            deploy_results: Vec::new(),
            deploy_returns: Vec::new(),
            call_results: Vec::new(),
            call_returns: Vec::new(),
            event_batches: Vec::new(),
        };
        proof {
            assert(r@.call_returns =~= Seq::<Seq<u8>>::empty());
            assert(r@.deploy_returns =~= Seq::<Address>::empty());
        }
        r
    }

    /// Appends a deployment: its result, its return when it succeeded, and its events.
    pub(crate) fn push_deploy(&mut self, outcome: InstantiateOutcome, events: Vec<Event>)
        ensures
            final(self)@ == old(self)@.after_deploy(outcome, events@),
            old(self)@.wf() ==> final(self)@.wf(),
    {
        let ghost before = self@;
        match &outcome {
            InstantiateOutcome::Instantiated(a) => {
                self.deploy_returns.push(*a);
            },
            _ => {},
        }
        self.deploy_results.push(outcome);
        self.event_batches.push(EventBatch::new(events));
        proof {
            assert(self.deploy_results@.drop_last() == before.deploy_results);
            assert(self@.event_batches == before.event_batches.push(events@));
        }
    }

    /// Appends a call: its result, its return when it returned normally, and its events.
    pub(crate) fn push_call(&mut self, outcome: ExecOutcome, events: Vec<Event>)
        ensures
            final(self)@ == old(self)@.after_call(outcome, events@),
            old(self)@.wf() ==> final(self)@.wf(),
    {
        let ghost before = self@;
        match &outcome {
            ExecOutcome::Returned(d) => {
                let copy = d.clone();
                proof {
                    assert(copy@ =~= d@);
                }
                self.call_returns.push(copy);
            },
            _ => {},
        }
        self.call_results.push(outcome);
        self.event_batches.push(EventBatch::new(events));
        proof {
            assert(self.call_results@.drop_last() == before.call_results);
            assert(self@.call_returns =~= before.after_call(outcome, events@).call_returns);
            assert(self@.event_batches == before.event_batches.push(events@));
        }
    }

    /// All the results of contract instantiations of the session.
    pub fn deploy_results(&self) -> (r: &[InstantiateOutcome])
        ensures
            r@ == self@.deploy_results,
    {
        self.deploy_results.as_slice()
    }

    /// The last result of contract instantiation.
    pub fn last_deploy_result(&self) -> (r: &InstantiateOutcome)
        requires
            self@.deploy_results.len() > 0,
        ensures
            *r == self@.deploy_results.last(),
    {
        &self.deploy_results[self.deploy_results.len() - 1]
    }

    /// The addresses of the contracts instantiated during the session.
    pub fn deploy_returns(&self) -> (r: &[Address])
        ensures
            r@ == self@.deploy_returns,
    {
        self.deploy_returns.as_slice()
    }

    /// The address of the last contract instantiated during the session.
    pub fn last_deploy_return(&self) -> (r: &Address)
        requires
            self@.deploy_returns.len() > 0,
        ensures
            *r == self@.deploy_returns.last(),
    {
        &self.deploy_returns[self.deploy_returns.len() - 1]
    }

    /// The address of the last contract instantiated during the session, if any.
    pub fn latest_deploy_return(&self) -> (r: Option<Address>)
        ensures
            self@.deploy_returns.len() == 0 ==> r is None,
            self@.deploy_returns.len() > 0 ==> r == Some(self@.deploy_returns.last()),
    {
        if self.deploy_returns.len() == 0 {
            None
        } else {
            Some(self.deploy_returns[self.deploy_returns.len() - 1])
        }
    }

    /// All the results of contract calls of the session.
    pub fn call_results(&self) -> (r: &[ExecOutcome])
        ensures
            r@ == self@.call_results,
    {
        self.call_results.as_slice()
    }

    /// The last result of a contract call.
    pub fn last_call_result(&self) -> (r: &ExecOutcome)
        requires
            self@.call_results.len() > 0,
        ensures
            *r == self@.call_results.last(),
    {
        &self.call_results[self.call_results.len() - 1]
    }

    /// The (encoded) payloads returned by the calls of the session.
    pub fn call_returns(&self) -> (r: &[Vec<u8>])
        ensures
            r@.map_values(|v: Vec<u8>| v@) == self@.call_returns,
    {
        self.call_returns.as_slice()
    }

    /// The (encoded) payload returned by the last call that returned normally.
    pub fn last_call_return(&self) -> (r: &[u8])
        requires
            self@.call_returns.len() > 0,
        ensures
            r@ == self@.call_returns.last(),
    {
        self.call_returns[self.call_returns.len() - 1].as_slice()
    }

    /// The event batches of the session, one per deployment or call.
    pub fn event_batches(&self) -> (r: &[EventBatch])
        ensures
            r@.map_values(|b: EventBatch| b@) == self@.event_batches,
    {
        self.event_batches.as_slice()
    }

    /// The event batch of the last deployment or call.
    pub fn last_event_batch(&self) -> (r: &EventBatch)
        requires
            self@.event_batches.len() > 0,
        ensures
            r@ == self@.event_batches.last(),
    {
        &self.event_batches[self.event_batches.len() - 1]
    }
}

} // verus!

verus! {

/// Every deployment either succeeded or failed: the successes and the failures together
/// are all of them.
pub proof fn lemma_instantiations_partition(results: Seq<InstantiateOutcome>)
    ensures
        instantiated_addresses(results).len() + failed_instantiations(results) == results.len(),
    decreases results.len(),
{
    if results.len() > 0 {
        lemma_instantiations_partition(results.drop_last());
    }
}

/// Whether the deployment at position `i` of `results` succeeded with address `address`
/// and exactly `n` deployments before it succeeded.
pub open spec fn is_nth_success(results: Seq<InstantiateOutcome>, i: int, n: int, address: Address) -> bool {
    &&& 0 <= i < results.len()
    &&& results[i] == InstantiateOutcome::Instantiated(address)
    &&& instantiated_addresses(results.take(i)).len() == n
}

/// The `n`-th instantiated address is the address of the `n`-th successful deployment.
pub proof fn lemma_nth_instantiated(results: Seq<InstantiateOutcome>, n: int)
    requires
        0 <= n < instantiated_addresses(results).len(),
    ensures
        exists|i: int| #[trigger] is_nth_success(results, i, n, instantiated_addresses(results)[n]),
    decreases results.len(),
{
    let prefix = results.drop_last();
    let k = results.len() - 1;
    if n < instantiated_addresses(prefix).len() {
        lemma_nth_instantiated(prefix, n);
        let i = choose|i: int| #[trigger] is_nth_success(prefix, i, n, instantiated_addresses(prefix)[n]);
        assert(results.take(i) == prefix.take(i));
        assert(results[i] == prefix[i]);
        match results.last() {
            InstantiateOutcome::Instantiated(a) => {
                assert(instantiated_addresses(results) == instantiated_addresses(prefix).push(a));
            },
            _ => {},
        }
        assert(is_nth_success(results, i, n, instantiated_addresses(results)[n]));
    } else {
        assert(results.take(k) == prefix);
        match results.last() {
            InstantiateOutcome::Instantiated(a) => {
                assert(instantiated_addresses(results) == instantiated_addresses(prefix).push(a));
                assert(is_nth_success(results, k, n, instantiated_addresses(results)[n]));
            },
            _ => {},
        }
    }
}

/// In a well-formed record, there are as many deploy returns as deploy results less the
/// deployments that failed, and the `n`-th deploy return is the address produced by the
/// `n`-th successful deployment.
pub proof fn lemma_deploy_returns_are_successes(record: RecordView, n: int)
    requires
        record.wf(),
        0 <= n < record.deploy_returns.len(),
    ensures
        record.deploy_returns.len() <= record.deploy_results.len(),
        record.deploy_returns.len() + failed_instantiations(record.deploy_results)
            == record.deploy_results.len(),
        exists|i: int| #[trigger] is_nth_success(record.deploy_results, i, n, record.deploy_returns[n]),
{
    lemma_instantiations_partition(record.deploy_results);
    lemma_nth_instantiated(record.deploy_results, n);
}

/// The contract events of a log are those of its first `start` entries followed by those
/// emitted since: splitting the log at a snapshot neither loses nor duplicates any.
pub proof fn lemma_contract_events_split(log: Seq<Event>, start: int)
    requires
        0 <= start <= log.len(),
    ensures
        contract_data(log) == contract_data(log.take(start)) + contract_data(
            log.subrange(start, log.len() as int),
        ),
    decreases log.len(),
{
    if log.len() == start {
        assert(log.take(start) == log);
        assert(log.subrange(start, log.len() as int) =~= Seq::<Event>::empty());
        assert(contract_data(log.take(start)) + contract_data(Seq::<Event>::empty()) =~= contract_data(log));
    } else {
        let prefix = log.drop_last();
        lemma_contract_events_split(prefix, start);
        assert(prefix.take(start) == log.take(start));
        let since = log.subrange(start, log.len() as int);
        assert(since.drop_last() == prefix.subrange(start, prefix.len() as int));
        assert(since.last() == log.last());
        match log.last() {
            Event::ContractEmitted { data, .. } => {
                assert(contract_data(log) =~= contract_data(log.take(start)) + contract_data(since));
            },
            Event::Runtime(_) => {},
        }
    }
}

} // verus!
