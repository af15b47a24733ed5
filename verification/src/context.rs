//! The per-invocation execution context.
//!
//! The node builds one `ServiceContext` per top-level invocation.  Its chain
//! and transaction facts are read-only for the whole call chain; the cycle
//! meter, the call stack and the event log are the mutable state that every
//! nested frame shares.  Contract code observes absent optional fields
//! (transaction hash, nonce, extra bytes) through fixed sentinel strings, so
//! absence is always distinguishable from an empty present value.

use vstd::prelude::*;
use crate::types::{Address, Digest, Event};
use crate::meter::CycleMeter;
use crate::stack::CallStack;
use crate::bytestr::{ascii_bytes, hex_of, lit_bytes};

verus! {

/// Everything the node supplies for one top-level invocation.
pub struct ServiceContextParams {
    pub tx_hash: Option<Digest>,
    pub nonce: Option<Digest>,
    pub cycles_limit: u64,
    pub cycles_price: u64,
    pub cycles_used: u64,
    pub caller: Address,
    pub height: u64,
    pub timestamp: u64,
    pub extra: Option<Vec<u8>>,
    pub service_name: Vec<u8>,
    pub service_method: Vec<u8>,
    pub service_payload: Vec<u8>,
}

/// The execution context of one top-level invocation: immutable chain and
/// transaction facts, plus the shared cycle meter, call stack and
/// append-only event log.
pub struct ServiceContext {
    pub tx_hash: Option<Digest>,
    pub nonce: Option<Digest>,
    pub caller: Address,
    pub height: u64,
    pub timestamp: u64,
    pub extra: Option<Vec<u8>>,
    pub service_name: Vec<u8>,
    pub service_method: Vec<u8>,
    pub service_payload: Vec<u8>,
    pub meter: CycleMeter,
    pub stack: CallStack,
    pub events: Vec<Event>,
}

/// The view of an optional hash.
pub open spec fn opt_hash_view(h: Option<Digest>) -> Option<Seq<u8>> {
    match h {
        None => None,
        Some(x) => Some(x@),
    }
}

/// The view of an optional byte string.
pub open spec fn opt_bytes_view(b: Option<Vec<u8>>) -> Option<Seq<u8>> {
    match b {
        None => None,
        Some(x) => Some(x@),
    }
}

/// What a context query reports for the transaction hash: its hex form, or
/// the documented sentinel when the invocation carries none.
pub open spec fn tx_hash_repr(h: Option<Digest>) -> Seq<u8> {
    match h {
        None => ascii_bytes("no tx hash"@),
        Some(x) => hex_of(x@),
    }
}

/// What a context query reports for the nonce.
pub open spec fn nonce_repr(h: Option<Digest>) -> Seq<u8> {
    match h {
        None => ascii_bytes("no tx nonce"@),
        Some(x) => hex_of(x@),
    }
}

/// What a context query reports for the extra bytes.
pub open spec fn extra_repr(b: Option<Vec<u8>>) -> Seq<u8> {
    match b {
        None => ascii_bytes("no extra"@),
        Some(x) => x@,
    }
}

/// The invocation facts a nested call must leave untouched.
pub open spec fn preserves_facts(a: ServiceContext, b: ServiceContext) -> bool {
    &&& b.caller@ == a.caller@
    &&& b.height == a.height
    &&& b.timestamp == a.timestamp
    &&& opt_hash_view(b.tx_hash) == opt_hash_view(a.tx_hash)
    &&& opt_hash_view(b.nonce) == opt_hash_view(a.nonce)
    &&& opt_bytes_view(b.extra) == opt_bytes_view(a.extra)
    &&& b.service_name@ == a.service_name@
    &&& b.service_method@ == a.service_method@
    &&& b.service_payload@ == a.service_payload@
    &&& b.meter.limit == a.meter.limit
    &&& b.meter.price == a.meter.price
}

impl ServiceContext {
    /// The context invariant: the meter stays within budget and the call
    /// stack's identities chain back to this invocation's caller.
    pub open spec fn wf(&self) -> bool {
        &&& self.meter.wf()
        &&& self.stack.wf(self.caller@)
    }

    /// Builds the context for a fresh top-level invocation: empty call
    /// stack, empty event log.
    pub fn new(params: ServiceContextParams) -> (r: ServiceContext)
        requires
            params.cycles_used <= params.cycles_limit,
        ensures
            r.wf(),
            opt_hash_view(r.tx_hash) == opt_hash_view(params.tx_hash),
            opt_hash_view(r.nonce) == opt_hash_view(params.nonce),
            r.caller@ == params.caller@,
            r.height == params.height,
            r.timestamp == params.timestamp,
            opt_bytes_view(r.extra) == opt_bytes_view(params.extra),
            r.service_name@ == params.service_name@,
            r.service_method@ == params.service_method@,
            r.service_payload@ == params.service_payload@,
            r.meter.limit == params.cycles_limit,
            r.meter.price == params.cycles_price,
            r.meter.used == params.cycles_used,
            r.stack@.len() == 0,
            r.events@.len() == 0,
    {
        ServiceContext {
            tx_hash: params.tx_hash,
            nonce: params.nonce,
            caller: params.caller,
            height: params.height,
            timestamp: params.timestamp,
            extra: params.extra,
            service_name: params.service_name,
            service_method: params.service_method,
            service_payload: params.service_payload,
            meter: CycleMeter::new(params.cycles_limit, params.cycles_price, params.cycles_used),
            stack: CallStack::empty(),
            events: Vec::new(),
        }
    }

    /// The block height of the invocation.
    pub fn get_current_height(&self) -> (r: u64)
        ensures
            r == self.height,
    {
        self.height
    }

    /// The block timestamp of the invocation.
    pub fn get_timestamp(&self) -> (r: u64)
        ensures
            r == self.timestamp,
    {
        self.timestamp
    }

    /// The transaction hash, where the invocation carries one.
    pub fn get_tx_hash(&self) -> (r: &Option<Digest>)
        ensures
            opt_hash_view(*r) == opt_hash_view(self.tx_hash),
    {
        &self.tx_hash
    }

    /// The transaction nonce, where the invocation carries one.
    pub fn get_nonce(&self) -> (r: &Option<Digest>)
        ensures
            opt_hash_view(*r) == opt_hash_view(self.nonce),
    {
        &self.nonce
    }

    /// The cycle budget of the invocation.
    pub fn get_cycles_limit(&self) -> (r: u64)
        ensures
            r == self.meter.limit,
    {
        self.meter.limit
    }

    /// The cycle price of the invocation.
    pub fn get_cycles_price(&self) -> (r: u64)
        ensures
            r == self.meter.price,
    {
        self.meter.price
    }

    /// The cycles charged so far.
    pub fn get_cycles_used(&self) -> (r: u64)
        ensures
            r == self.meter.used,
    {
        self.meter.used
    }

    /// The shared event log, in emission order across all frames.
    pub fn get_events(&self) -> (r: &Vec<Event>)
        ensures
            r@ == self.events@,
    {
        &self.events
    }

    /// The transaction-hash answer of a context query: hex, or the
    /// documented sentinel.
    pub fn tx_hash_bytes(&self) -> (r: Vec<u8>)
        ensures
            r@ == tx_hash_repr(self.tx_hash),
    {
        match &self.tx_hash {
            None => {
                proof {
                    reveal_strlit("no tx hash");
                }
                lit_bytes("no tx hash")
            },
            Some(h) => h.as_hex(),
        }
    }

    /// The nonce answer of a context query.
    pub fn nonce_bytes(&self) -> (r: Vec<u8>)
        ensures
            r@ == nonce_repr(self.nonce),
    {
        match &self.nonce {
            None => {
                proof {
                    reveal_strlit("no tx nonce");
                }
                lit_bytes("no tx nonce")
            },
            Some(h) => h.as_hex(),
        }
    }

    /// The extra-bytes answer of a context query.
    pub fn extra_bytes(&self) -> (r: Vec<u8>)
        ensures
            r@ == extra_repr(self.extra),
    {
        match &self.extra {
            None => {
                proof {
                    reveal_strlit("no extra");
                }
                lit_bytes("no extra")
            },
            Some(b) => crate::bytestr::copy_bytes(b),
        }
    }
}

} // verus!
