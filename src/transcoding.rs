//! Message transcoders: the registry that says which transcoder speaks for which
//! contract, and the calls into contract-transcode that encode and decode messages.

use vstd::prelude::*;
use crate::byte_map::ByteMap;
use crate::errors::SessionError;
use crate::primitives::Address;

verus! {

#[verifier::external_type_specification]
#[verifier::external_body]
pub struct ExContractMessageTranscoder(contract_transcode::ContractMessageTranscoder);

#[verifier::external_type_specification]
#[verifier::external_body]
pub struct ExValue(contract_transcode::Value);

/// Which transcoder encodes and decodes the messages of which contract.
///
/// `T` is the handle a session keeps for a transcoder (shared by reference counting where
/// several contracts speak the same ABI).
pub struct TranscoderRegistry<T> {
    transcoders: ByteMap<20, T>,
}

impl<T> View for TranscoderRegistry<T> {
    type V = Map<Address, T>;

    closed spec fn view(&self) -> Map<Address, T> {
        self.transcoders@
    }
}

impl<T> TranscoderRegistry<T> {
    pub closed spec fn wf(&self) -> bool {
        self.transcoders.wf()
    }

    /// An empty registry.
    pub fn new() -> (r: TranscoderRegistry<T>)
        ensures
            r.wf(),
            r@ == Map::<Address, T>::empty(),
    {
        TranscoderRegistry { transcoders: ByteMap::new() }
    }

    /// Registers `transcoder` for `contract`, replacing the one registered before.
    pub fn register(&mut self, contract: Address, transcoder: T)
        requires
            old(self).wf(),
        ensures
            final(self).wf(),
            final(self)@ == old(self)@.insert(contract, transcoder),
    {
        self.transcoders.insert(contract, transcoder);
    }

    /// The transcoder registered for `contract`, if any.
    pub fn get(&self, contract: &Address) -> (r: Option<&T>)
        requires
            self.wf(),
        ensures
            match r {
                Some(t) => self@.contains_key(*contract) && *t == self@[*contract],
                None => !self@.contains_key(*contract),
            },
    {
        self.transcoders.get(contract)
    }
}

/// The arguments of a call, as text.
pub open spec fn arg_views(args: Seq<String>) -> Seq<Seq<char>> {
    args.map_values(|s: String| s@)
}

/// The signature topics of a list of event declarations, as byte sequences.
pub open spec fn signature_views(signatures: Seq<Option<Vec<u8>>>) -> Seq<Option<Seq<u8>>> {
    signatures.map_values(
        |o: Option<Vec<u8>>|
            match o {
                Some(v) => Some(v@),
                None => None,
            },
    )
}

/// What `transcoder` encodes a call of the constructor or message `name` with `args`
/// into: its selector followed by the encoded arguments, or `None` when there is no such
/// constructor or message or the arguments do not fit it.
pub uninterp spec fn encoded_call_of(
    transcoder: contract_transcode::ContractMessageTranscoder,
    name: Seq<char>,
    args: Seq<Seq<char>>,
) -> Option<Seq<u8>>;

/// The signature topic of each event that `transcoder`'s ABI declares, in order (`None`
/// for an anonymous event).
pub uninterp spec fn event_signatures_of(
    transcoder: contract_transcode::ContractMessageTranscoder,
) -> Seq<Option<Seq<u8>>>;

/// The event that `transcoder` decodes from `stored` (an event body as the runtime stores
/// it) given its signature topic, or `None` when it cannot.
pub uninterp spec fn decoded_event_of(
    transcoder: contract_transcode::ContractMessageTranscoder,
    signature: Seq<u8>,
    stored: Seq<u8>,
) -> Option<contract_transcode::Value>;

/// The text of the value that `transcoder` decodes from `data` as the return value of the
/// message `name`, or the text of the error it reports.
pub uninterp spec fn decoded_return_of(
    transcoder: contract_transcode::ContractMessageTranscoder,
    name: Seq<char>,
    data: Seq<u8>,
) -> Result<Seq<char>, Seq<char>>;

/// Relies on `ContractMessageTranscoder::encode`: finds the constructor or message named
/// `name` and writes its 4-byte selector followed by the encoded arguments; the error is
/// kept as its message.
#[verifier::external_body]
fn transcoder_encode(
    transcoder: &contract_transcode::ContractMessageTranscoder,
    name: &str,
    args: &[String],
) -> (r: Result<Vec<u8>, String>)
    ensures
        r is Ok <==> encoded_call_of(*transcoder, name@, arg_views(args@)) is Some,
        r is Ok ==> r->Ok_0@ == encoded_call_of(*transcoder, name@, arg_views(args@))->0
            && r->Ok_0@.len() >= 4,
{
    transcoder.encode(name, args.iter()).map_err(|e| e.to_string())
}

/// The outcome of encoding a message, as a session reports it.
pub fn encoding_outcome(raw: Result<Vec<u8>, String>) -> (r: Result<Vec<u8>, SessionError>)
    ensures
        match raw {
            Ok(data) => r matches Ok(d) && d@ == data@,
            Err(msg) => r matches Err(SessionError::Encoding(m)) && m@ == msg@,
        },
{
    match raw {
        Ok(data) => Ok(data),
        Err(msg) => Err(SessionError::Encoding(msg)),
    }
}

/// Encodes a call of the constructor or message `name` with `args`: the selector followed
/// by the encoded arguments, or an `Encoding` error when `transcoder` knows no such
/// constructor or message or the arguments do not fit it.
pub fn encode_message(
    transcoder: &contract_transcode::ContractMessageTranscoder,
    name: &str,
    args: &[String],
) -> (r: Result<Vec<u8>, SessionError>)
    ensures
        match encoded_call_of(*transcoder, name@, arg_views(args@)) {
            Some(bytes) => r matches Ok(d) && d@ == bytes && bytes.len() >= 4,
            None => r matches Err(SessionError::Encoding(_)),
        },
{
    encoding_outcome(transcoder_encode(transcoder, name, args))
}

/// Relies on `ContractMessageTranscoder::decode_message_return`: decodes the value the
/// message `name` returned; the value and the error are kept as their text.
#[verifier::external_body]
pub(crate) fn transcoder_decode_return(
    transcoder: &contract_transcode::ContractMessageTranscoder,
    name: &str,
    data: &[u8],
) -> (r: Result<String, String>)
    ensures
        match decoded_return_of(*transcoder, name@, data@) {
            Ok(text) => r matches Ok(t) && t@ == text,
            Err(text) => r matches Err(t) && t@ == text,
        },
{
    let mut input = data;
    transcoder.decode_message_return(name, &mut input).map(|v| v.to_string()).map_err(
        |e| e.to_string(),
    )
}

/// Relies on `ContractMessageTranscoder::metadata`: the signature topic of each event the
/// contract's ABI declares, in order (`None` for an anonymous event).
#[verifier::external_body]
pub(crate) fn transcoder_event_signatures(
    transcoder: &contract_transcode::ContractMessageTranscoder,
) -> (r: Vec<Option<Vec<u8>>>)
    ensures
        signature_views(r@) == event_signatures_of(*transcoder),
{
    transcoder.metadata().spec().events().iter().map(
        |e| e.signature_topic().map(|t| t.as_bytes().to_vec()),
    ).collect()
}

/// Relies on `ContractMessageTranscoder::decode_contract_event`: decodes the body of an
/// event whose signature topic is `signature`, given as the runtime stores it.
#[verifier::external_body]
pub(crate) fn transcoder_decode_event(
    transcoder: &contract_transcode::ContractMessageTranscoder,
    signature: &[u8],
    stored: &[u8],
) -> (r: Result<contract_transcode::Value, String>)
    ensures
        r is Ok <==> decoded_event_of(*transcoder, signature@, stored@) is Some,
        r is Ok ==> decoded_event_of(*transcoder, signature@, stored@) == Some(r->Ok_0),
{
    let mut input = stored;
    transcoder.decode_contract_event(&signature, &mut input).map_err(|e| e.to_string())
}

/// The SCALE compact encoding of a length `n` below 2^32: one byte below 2^6, two below
/// 2^14, four below 2^30, else the marker `0b11` and four bytes, all little-endian, with
/// the mode in the two lowest bits.
pub open spec fn compact_prefix(n: nat) -> Seq<u8> {
    if n < 64 {
        seq![(n * 4) as u8]
    } else if n < 16384 {
        let v = n * 4 + 1;
        seq![(v % 256) as u8, (v / 256) as u8]
    } else if n < 1073741824 {
        let v = n * 4 + 2;
        seq![(v % 256) as u8, ((v / 256) % 256) as u8, ((v / 65536) % 256) as u8, (v / 16777216) as u8]
    } else {
        seq![3u8, (n % 256) as u8, ((n / 256) % 256) as u8, ((n / 65536) % 256) as u8, (n / 16777216) as u8]
    }
}

/// The SCALE encoding of a byte sequence, as the runtime stores an event body: its length
/// in compact form, then the bytes.
pub fn scale_encode_bytes(data: &[u8]) -> (r: Vec<u8>)
    requires
        data@.len() <= u32::MAX,
    ensures
        r@ == compact_prefix(data@.len()) + data@,
{
    let n: u64 = data.len() as u64;
    let mut out: Vec<u8> = Vec::new();
    if n < 64 {
        out.push((n * 4) as u8);
    } else if n < 16384 {
        let v: u64 = n * 4 + 1;
        out.push((v % 256) as u8);
        out.push((v / 256) as u8);
    } else if n < 1073741824 {
        let v: u64 = n * 4 + 2;
        out.push((v % 256) as u8);
        out.push(((v / 256) % 256) as u8);
        out.push(((v / 65536) % 256) as u8);
        out.push((v / 16777216) as u8);
    } else {
        out.push(3u8);
        out.push((n % 256) as u8);
        out.push(((n / 256) % 256) as u8);
        out.push(((n / 65536) % 256) as u8);
        out.push((n / 16777216) as u8);
    }
    let ghost prefix = out@;
    proof {
        assert(prefix =~= compact_prefix(data@.len()));
    }
    let mut i: usize = 0;
    while i < data.len()
        invariant
            i <= data@.len(),
            out@ == prefix + data@.subrange(0, i as int),
        decreases data@.len() - i,
    {
        out.push(data[i]);
        i += 1;
        proof {
            assert(out@ =~= prefix + data@.subrange(0, i as int));
        }
    }
    proof {
        assert(data@.subrange(0, i as int) =~= data@);
    }
    out
}

} // verus!
