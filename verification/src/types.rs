//! The data model: addresses, hashes, payloads, events and errors.

use vstd::prelude::*;
use crate::bytestr::{copy_bytes, hex_encode, hex_decode, hex_of, unhex, valid_hex, bytes_eq};

verus! {

/// Byte width of an account or contract address.
pub const ADDRESS_LEN: usize = 20;

/// Byte width of a transaction hash or nonce.
pub const HASH_LEN: usize = 32;

/// A fixed-width identifier of an externally-owned account or a deployed
/// contract.
#[derive(Debug)]
pub struct Address {
    pub bytes: Vec<u8>,
}

impl View for Address {
    type V = Seq<u8>;

    open spec fn view(&self) -> Seq<u8> {
        self.bytes@
    }
}

impl Clone for Address {
    fn clone(&self) -> (r: Self)
        ensures
            r@ == self@,
    {
        Address { bytes: copy_bytes(&self.bytes) }
    }
}

/// The address denoted by a hexadecimal string with an optional `0x` prefix,
/// or `None` where the string is malformed or of the wrong width.
pub open spec fn spec_address_from_hex(h: Seq<u8>) -> Option<Seq<u8>> {
    let s = if h.len() >= 2 && h[0] == 48 && h[1] == 120 {
        h.subrange(2, h.len() as int)
    } else {
        h
    };
    if valid_hex(s) && s.len() == 2 * ADDRESS_LEN {
        Some(unhex(s))
    } else {
        None
    }
}

impl Address {
    /// Whether the address has its fixed width.
    pub open spec fn wf(&self) -> bool {
        self@.len() == ADDRESS_LEN
    }

    /// Builds an address from its raw bytes.
    pub fn from_bytes(bytes: Vec<u8>) -> (r: Address)
        requires
            bytes@.len() == ADDRESS_LEN,
        ensures
            r@ == bytes@,
            r.wf(),
    {
        Address { bytes }
    }

    /// Parses an address from lowercase or uppercase hex, with an optional
    /// `0x` prefix.
    pub fn from_hex(h: &Vec<u8>) -> (r: Option<Address>)
        ensures
            match r {
                Some(a) => spec_address_from_hex(h@) == Some(a@) && a.wf(),
                None => spec_address_from_hex(h@) is None,
            },
    {
        let stripped: Vec<u8> = if h.len() >= 2 && h[0] == 48 && h[1] == 120 {
            let mut s: Vec<u8> = Vec::new();
            let mut i: usize = 2;
            while i < h.len()
                invariant
                    2 <= i <= h@.len(),
                    h@.len() >= 2,
                    s@ == h@.subrange(2, i as int),
                decreases h@.len() - i,
            {
                s.push(h[i]);
                proof {
                    assert(s@ =~= h@.subrange(2, i + 1 as int));
                }
                i = i + 1;
            }
            proof {
                assert(s@ =~= h@.subrange(2, h@.len() as int));
            }
            s
        } else {
            copy_bytes(h)
        };
        proof {
            crate::bytestr::lemma_unhex_len(stripped@);
        }
        match hex_decode(&stripped) {
            Some(b) => {
                if b.len() == ADDRESS_LEN {
                    Some(Address { bytes: b })
                } else {
                    None
                }
            },
            None => None,
        }
    }

    /// The lowercase hexadecimal form of the address, without a prefix.
    pub fn as_hex(&self) -> (r: Vec<u8>)
        ensures
            r@ == hex_of(self@),
    {
        hex_encode(&self.bytes)
    }

    /// Address equality.
    pub fn same(&self, other: &Address) -> (r: bool)
        ensures
            r == (self@ == other@),
    {
        bytes_eq(&self.bytes, &other.bytes)
    }
}

/// A transaction hash or nonce value.
#[derive(Debug)]
pub struct Digest {
    pub bytes: Vec<u8>,
}

impl View for Digest {
    type V = Seq<u8>;

    open spec fn view(&self) -> Seq<u8> {
        self.bytes@
    }
}

impl Clone for Digest {
    fn clone(&self) -> (r: Self)
        ensures
            r@ == self@,
    {
        Digest { bytes: copy_bytes(&self.bytes) }
    }
}

impl Digest {
    /// Whether the hash has its fixed width.
    pub open spec fn wf(&self) -> bool {
        self@.len() == HASH_LEN
    }

    /// Builds a hash from its raw bytes.
    pub fn from_bytes(bytes: Vec<u8>) -> (r: Digest)
        requires
            bytes@.len() == HASH_LEN,
        ensures
            r@ == bytes@,
            r.wf(),
    {
        Digest { bytes }
    }

    /// The lowercase hexadecimal form of the hash, without a prefix.
    pub fn as_hex(&self) -> (r: Vec<u8>)
        ensures
            r@ == hex_of(self@),
    {
        hex_encode(&self.bytes)
    }
}

/// The closed set of embedded engines a contract can be deployed under,
/// fixed per contract at deploy time.  `Builtin` is the library's own
/// deterministic engine: it dispatches on the `method` field of the call
/// arguments and exercises every host primitive.
#[derive(Clone, Copy, PartialEq, Eq, Structural, Debug)]
pub enum InterpreterType {
    Builtin,
}

/// A request to deploy contract code.
#[derive(Debug)]
pub struct DeployPayload {
    /// Hex-encoded contract code.
    pub code: Vec<u8>,
    /// The engine the contract will run under.
    pub intp_type: InterpreterType,
    /// Arguments for the contract initializer; empty means no initializer
    /// runs.
    pub init_args: Vec<u8>,
}

/// What a successful deploy returns.
#[derive(Debug)]
pub struct DeployResp {
    /// The freshly derived contract address.
    pub address: Address,
    /// The initializer's result, empty when no initializer ran.
    pub init_ret: Vec<u8>,
}

/// A request to execute a deployed contract.
#[derive(Debug)]
pub struct ExecPayload {
    /// The target contract.
    pub address: Address,
    /// Opaque arguments, interpreted by the contract code alone.
    pub args: Vec<u8>,
}

impl ExecPayload {
    /// Bundles a target address and arguments.
    pub fn new(address: Address, args: Vec<u8>) -> (r: ExecPayload)
        ensures
            r.address@ == address@,
            r.args@ == args@,
    {
        ExecPayload { address, args }
    }
}

/// An entry of the shared event log.
#[derive(Debug)]
pub struct Event {
    /// The contract that emitted the event.
    pub emitter: Address,
    /// Opaque payload.
    pub data: Vec<u8>,
}

/// How a call chain fails.  Any error unwinds the whole chain back to the
/// top-level invoker; no partial result is returned below the failing frame.
#[derive(Debug)]
pub enum ExecError {
    /// Unknown contract, service or method.
    NotFound { what: Vec<u8> },
    /// The cycle budget was exhausted; usage is pinned at the limit.
    OutOfCycles,
    /// An engine-level fault, carrying the engine's message.
    ScriptError { msg: Vec<u8> },
    /// A storage backend failure, non-retryable at this layer.
    StorageError { msg: Vec<u8> },
    /// An invariant violation inside the core; signals a bug.
    Internal { msg: Vec<u8> },
}

/// Failure of the service-name resolution step of a cross-service call.
#[derive(Debug)]
pub enum MappingError {
    /// No service of this name is reachable from the runtime.
    NotFoundService { service: Vec<u8> },
}

impl From<MappingError> for ExecError {
    fn from(err: MappingError) -> (r: ExecError) {
        match err {
            MappingError::NotFoundService { service } => ExecError::NotFound { what: service },
        }
    }
}

impl vstd::std_specs::convert::FromSpecImpl<MappingError> for ExecError {
    open spec fn obeys_from_spec() -> bool {
        true
    }

    open spec fn from_spec(err: MappingError) -> ExecError {
        match err {
            MappingError::NotFoundService { service } => ExecError::NotFound { what: service },
        }
    }
}

} // verus!
