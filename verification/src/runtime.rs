//! The contract execution runtime.
//!
//! `deploy` registers opaque contract code under a deterministically derived
//! address; `exec` runs a deployed contract inside the metered sandbox.  The
//! interpreter adapter bridges contract code to the host primitives
//! uniformly for every engine of the closed `InterpreterType` set; the one
//! engine shipped here, `Builtin`, dispatches on the `method` member of the
//! call arguments and exercises every host primitive, so each primitive's
//! behaviour is pinned by the contracts below.

use vstd::prelude::*;
use crate::types::{
    Address, DeployPayload, DeployResp, Event, ExecError, ExecPayload, InterpreterType,
    MappingError, spec_address_from_hex,
};
use crate::context::{ServiceContext, preserves_facts};
use crate::stack::next_caller;
use crate::storage::{ContractStorage, lookup};
use crate::bytestr::{
    ascii_bytes, bytes_eq, copy_bytes, dec_bytes, dec_of, hex_of, hex_decode, lit_bytes, unhex,
    valid_hex, append_bytes,
};
use crate::args::get_field;
use crate::args::get_field_bytes;

verus! {

/// Cycles charged for one storage write.
pub const CYCLES_STORAGE_SET: u64 = 1;

/// Cycles charged for one storage read.
pub const CYCLES_STORAGE_GET: u64 = 1;

/// Cycles charged for emitting one event.
pub const CYCLES_EMIT: u64 = 1;

/// Cycles charged for entering one nested contract or service call.
pub const CYCLES_CALL: u64 = 1;

/// A deployed contract: its address, its opaque code and the engine it is
/// fixed to.
pub struct DeployedContract {
    pub address: Address,
    pub code: Vec<u8>,
    pub intp_type: InterpreterType,
}

/// Whether an address carries a deployed contract.
pub open spec fn is_deployed(rs: Seq<DeployedContract>, a: Seq<u8>) -> bool {
    exists|i: int| 0 <= i < rs.len() && (#[trigger] rs[i].address)@ == a
}

/// The address derived for the `count`-th deploy of a runtime: a tagged,
/// big-endian encoding of the deploy counter.
pub open spec fn derived_address(count: u64) -> Seq<u8> {
    seq![0xc0u8] + Seq::new(11, |i: int| 0u8) + seq![
        ((count >> 56) & 0xff) as u8,
        ((count >> 48) & 0xff) as u8,
        ((count >> 40) & 0xff) as u8,
        ((count >> 32) & 0xff) as u8,
        ((count >> 24) & 0xff) as u8,
        ((count >> 16) & 0xff) as u8,
        ((count >> 8) & 0xff) as u8,
        (count & 0xff) as u8,
    ]
}

/// Address derivation is collision-free: distinct deploy counters give
/// distinct addresses.
pub proof fn lemma_derived_address_injective(a: u64, b: u64)
    requires
        derived_address(a) == derived_address(b),
    ensures
        a == b,
{
    let da = derived_address(a);
    let db = derived_address(b);
    assert(da[12] == ((a >> 56) & 0xff) as u8);
    assert(da[13] == ((a >> 48) & 0xff) as u8);
    assert(da[14] == ((a >> 40) & 0xff) as u8);
    assert(da[15] == ((a >> 32) & 0xff) as u8);
    assert(da[16] == ((a >> 24) & 0xff) as u8);
    assert(da[17] == ((a >> 16) & 0xff) as u8);
    assert(da[18] == ((a >> 8) & 0xff) as u8);
    assert(da[19] == (a & 0xff) as u8);
    assert(db[12] == ((b >> 56) & 0xff) as u8);
    assert(db[13] == ((b >> 48) & 0xff) as u8);
    assert(db[14] == ((b >> 40) & 0xff) as u8);
    assert(db[15] == ((b >> 32) & 0xff) as u8);
    assert(db[16] == ((b >> 24) & 0xff) as u8);
    assert(db[17] == ((b >> 16) & 0xff) as u8);
    assert(db[18] == ((b >> 8) & 0xff) as u8);
    assert(db[19] == (b & 0xff) as u8);
    assert(a == b) by (bit_vector)
        requires
            ((a >> 56) & 0xff) as u8 == ((b >> 56) & 0xff) as u8,
            ((a >> 48) & 0xff) as u8 == ((b >> 48) & 0xff) as u8,
            ((a >> 40) & 0xff) as u8 == ((b >> 40) & 0xff) as u8,
            ((a >> 32) & 0xff) as u8 == ((b >> 32) & 0xff) as u8,
            ((a >> 24) & 0xff) as u8 == ((b >> 24) & 0xff) as u8,
            ((a >> 16) & 0xff) as u8 == ((b >> 16) & 0xff) as u8,
            ((a >> 8) & 0xff) as u8 == ((b >> 8) & 0xff) as u8,
            (a & 0xff) as u8 == (b & 0xff) as u8,
    ;
}

/// Success carrying exactly the byte string `v`.
pub open spec fn ok_bytes(r: Result<Vec<u8>, ExecError>, v: Seq<u8>) -> bool {
    match r {
        Ok(b) => b@ == v,
        Err(_) => false,
    }
}

/// An engine-level fault.
pub open spec fn is_script_err<T>(r: Result<T, ExecError>) -> bool {
    match r {
        Err(ExecError::ScriptError { .. }) => true,
        _ => false,
    }
}

/// An unknown contract, service or method.
pub open spec fn is_not_found<T>(r: Result<T, ExecError>) -> bool {
    match r {
        Err(ExecError::NotFound { .. }) => true,
        _ => false,
    }
}

/// Budget exhaustion.
pub open spec fn is_out_of_cycles<T>(r: Result<T, ExecError>) -> bool {
    match r {
        Err(ExecError::OutOfCycles) => true,
        _ => false,
    }
}

/// The method member of the builtin engine's arguments.
pub open spec fn method_of(args: Seq<u8>) -> Option<Seq<u8>> {
    get_field(args, ascii_bytes("method"@))
}

/// A step that charged nothing, emitted nothing and wrote nothing.
pub open spec fn quiet(
    c0: ServiceContext,
    c1: ServiceContext,
    s0: Seq<crate::storage::StorageEntry>,
    s1: Seq<crate::storage::StorageEntry>,
) -> bool {
    &&& c1.meter.used == c0.meter.used
    &&& c1.events@ == c0.events@
    &&& s1 == s0
}

/// What every frame of a call chain preserves, whatever its outcome: the
/// invocation facts, the caller's view of the stack, meter monotonicity
/// within the budget, and the already-emitted prefix of the event log.
pub open spec fn step_frame(
    s0: crate::runtime::Runtime,
    s1: crate::runtime::Runtime,
    c0: ServiceContext,
    c1: ServiceContext,
) -> bool {
    &&& c1.wf()
    &&& preserves_facts(c0, c1)
    &&& c1.stack@ == c0.stack@
    &&& c1.meter.used >= c0.meter.used
    &&& c0.events@.is_prefix_of(c1.events@)
    &&& s1.service_name@ == s0.service_name@
    &&& s0.storage@.is_prefix_of(s1.storage@)
}

/// The contract execution runtime: the deployed-code registry, the deploy
/// counter the address derivation runs on, the storage region, and the
/// service name under which cross-service calls reach this runtime again.
pub struct Runtime {
    pub service_name: Vec<u8>,
    pub contracts: Vec<DeployedContract>,
    pub deploy_count: u64,
    pub storage: ContractStorage,
}

impl Runtime {
    /// The registry invariant: the deploy counter counts the registered
    /// contracts, and the `i`-th registered contract sits at the address
    /// derived for the `i`-th deploy.  Together with the injectivity of the
    /// derivation it makes every deployed address fresh.
    pub open spec fn wf(&self) -> bool {
        &&& self.deploy_count == self.contracts@.len()
        &&& forall|i: int|
            0 <= i < self.contracts@.len() ==> (#[trigger] self.contracts@[i].address)@
                == derived_address(i as u64)
    }

    /// A fresh runtime, registered under `service_name` for cross-service
    /// calls.
    pub fn new(service_name: Vec<u8>) -> (r: Runtime)
        ensures
            r.service_name@ == service_name@,
            r.contracts@.len() == 0,
            r.deploy_count == 0,
            r.storage@.len() == 0,
            r.wf(),
    {
        Runtime {
            service_name,
            contracts: Vec::new(),
            deploy_count: 0,
            storage: ContractStorage::new(),
        }
    }

    /// Resolves a service name, as the node's service mapping does: the
    /// runtime itself is the one service reachable from contract code here,
    /// and any other name is a mapping error.
    pub fn get_service(&self, name: &Vec<u8>) -> (r: Result<(), MappingError>)
        ensures
            name@ == self.service_name@ ==> r is Ok,
            name@ != self.service_name@ ==> ({
                &&& r is Err
                &&& match r {
                    Err(MappingError::NotFoundService { service }) => service@ == name@,
                    _ => false,
                }
            }),
    {
        if bytes_eq(name, &self.service_name) {
            Ok(())
        } else {
            Err(MappingError::NotFoundService { service: copy_bytes(name) })
        }
    }

    /// The service names reachable from this runtime.
    pub fn list_service_name(&self) -> (r: Vec<Vec<u8>>)
        ensures
            r@.len() == 1,
            r@[0]@ == self.service_name@,
    {
        let mut r: Vec<Vec<u8>> = Vec::new();
        r.push(copy_bytes(&self.service_name));
        r
    }

    /// Finds the registry slot of a deployed contract.
    fn find_contract(&self, a: &Address) -> (r: Option<usize>)
        ensures
            match r {
                Some(i) => i < self.contracts@.len() && self.contracts@[i as int].address@ == a@,
                None => !is_deployed(self.contracts@, a@),
            },
    {
        let mut i: usize = 0;
        while i < self.contracts.len()
            invariant
                i <= self.contracts@.len(),
                forall|j: int| 0 <= j < i ==> (#[trigger] self.contracts@[j].address)@ != a@,
            decreases self.contracts@.len() - i,
        {
            if bytes_eq(&self.contracts[i].address.bytes, &a.bytes) {
                return Some(i);
            }
            i = i + 1;
        }
        None
    }

    /// Derives the address for the next deploy.
    fn derive_address(&self) -> (r: Address)
        ensures
            r@ == derived_address(self.deploy_count),
            r.wf(),
    {
        let n = self.deploy_count;
        let mut b: Vec<u8> = Vec::new();
        b.push(0xc0u8);
        let mut i: usize = 0;
        while i < 11
            invariant
                i <= 11,
                b@.len() == 1 + i,
                b@[0] == 0xc0u8,
                forall|j: int| 1 <= j < b@.len() ==> b@[j] == 0u8,
            decreases 11 - i,
        {
            b.push(0u8);
            i = i + 1;
        }
        b.push(((n >> 56) & 0xff) as u8);
        b.push(((n >> 48) & 0xff) as u8);
        b.push(((n >> 40) & 0xff) as u8);
        b.push(((n >> 32) & 0xff) as u8);
        b.push(((n >> 24) & 0xff) as u8);
        b.push(((n >> 16) & 0xff) as u8);
        b.push(((n >> 8) & 0xff) as u8);
        b.push((n & 0xff) as u8);
        proof {
            assert(b@ =~= derived_address(n));
        }
        Address::from_bytes(b)
    }

    /// Runs a contract's initializer under the given engine.  The builtin
    /// engine's initializer returns its arguments unchanged.
    fn run_initializer(intp: InterpreterType, init_args: &Vec<u8>) -> (r: Vec<u8>)
        ensures
            r@ == init_args@,
    {
        match intp {
            InterpreterType::Builtin => copy_bytes(init_args),
        }
    }

    /// Deploys contract code: derives a fresh address, registers the code
    /// and engine under it, and — only when `init_args` is non-empty — runs
    /// the initializer in the first frame and returns its result as
    /// `init_ret`.  Empty `init_args` always yields an empty `init_ret` and
    /// runs no initializer, leaving meter and events untouched.  Malformed
    /// (non-hex) code is rejected with a script error and registers
    /// nothing.
    pub fn deploy(&mut self, ctx: &mut ServiceContext, payload: DeployPayload) -> (r: Result<
        DeployResp,
        ExecError,
    >)
        requires
            old(ctx).wf(),
            old(self).wf(),
            old(self).deploy_count < u64::MAX,
        ensures
            final(self).wf(),
            step_frame(*old(self), *final(self), *old(ctx), *final(ctx)),
            final(ctx).stack@ == old(ctx).stack@,
            final(self).storage@ == old(self).storage@,
            !valid_hex(payload.code@) ==> ({
                &&& is_script_err(r)
                &&& final(self).contracts@ == old(self).contracts@
                &&& final(self).deploy_count == old(self).deploy_count
                &&& quiet(*old(ctx), *final(ctx), old(self).storage@, final(self).storage@)
            }),
            valid_hex(payload.code@) ==> ({
                &&& r is Ok
                &&& final(self).deploy_count == old(self).deploy_count + 1
                &&& final(self).contracts@.len() == old(self).contracts@.len() + 1
                &&& final(self).contracts@.drop_last() == old(self).contracts@
                &&& final(self).contracts@.last().address@ == derived_address(
                    old(self).deploy_count,
                )
                &&& final(self).contracts@.last().code@ == unhex(payload.code@)
                &&& final(self).contracts@.last().intp_type == payload.intp_type
                &&& r->Ok_0.address@ == derived_address(old(self).deploy_count)
                &&& !is_deployed(old(self).contracts@, r->Ok_0.address@)
                &&& payload.init_args@.len() == 0 ==> ({
                    &&& r->Ok_0.init_ret@ == Seq::<u8>::empty()
                    &&& final(ctx).meter.used == old(ctx).meter.used
                    &&& final(ctx).events@ == old(ctx).events@
                })
                &&& payload.init_args@.len() > 0 ==> r->Ok_0.init_ret@ == payload.init_args@
            }),
    {
        let code = match hex_decode(&payload.code) {
            Some(c) => c,
            None => {
                proof {
                    reveal_strlit("invalid contract code hex");
                }
                return Err(ExecError::ScriptError { msg: lit_bytes("invalid contract code hex") });
            },
        };
        let address = self.derive_address();
        proof {
            assert forall|i: int|
                0 <= i < self.contracts@.len() implies (#[trigger] self.contracts@[i].address)@
                != derived_address(self.deploy_count) by {
                if self.contracts@[i].address@ == derived_address(self.deploy_count) {
                    lemma_derived_address_injective(i as u64, self.deploy_count);
                }
            }
        }
        let registered = DeployedContract {
            address: address.clone(),
            code,
            intp_type: payload.intp_type,
        };
        self.contracts.push(registered);
        self.deploy_count = self.deploy_count + 1;
        proof {
            assert(final(self).contracts@.drop_last() =~= old(self).contracts@);
        }
        let init_ret: Vec<u8> = if payload.init_args.len() == 0 {
            Vec::new()
        } else {
            ctx.stack.push_call(address.clone(), &ctx.caller);
            let ret = Self::run_initializer(payload.intp_type, &payload.init_args);
            ctx.stack.pop_call();
            proof {
                assert(final(ctx).stack@ =~= old(ctx).stack@);
            }
            ret
        };
        Ok(DeployResp { address, init_ret })
    }
}

/// The reply of the `_ret_caller_and_origin` probe: a flat object carrying
/// the current caller and the origin, hex-encoded.
pub open spec fn ret_caller_origin(clr: Seq<u8>, org: Seq<u8>) -> Seq<u8> {
    ascii_bytes("{\"caller\":\""@) + hex_of(clr) + ascii_bytes("\",\"origin\":\""@) + hex_of(org)
        + ascii_bytes("\"}"@)
}

/// The lengths of the builtin engine's method names.  Knowing them lets a
/// caller walk the dispatch cascade of `builtin_spec` for one concrete
/// method without spelling every name out again.
pub proof fn lemma_probe_name_lengths()
    ensures
        ascii_bytes("test_load_args"@).len() == 14,
        ascii_bytes("test_load_json_args"@).len() == 19,
        ascii_bytes("test_cycle_limit"@).len() == 16,
        ascii_bytes("test_cycle_used"@).len() == 15,
        ascii_bytes("test_cycle_price"@).len() == 16,
        ascii_bytes("test_caller"@).len() == 11,
        ascii_bytes("test_address"@).len() == 12,
        ascii_bytes("test_block_height"@).len() == 17,
        ascii_bytes("test_timestamp"@).len() == 14,
        ascii_bytes("test_extra"@).len() == 10,
        ascii_bytes("test_no_extra"@).len() == 13,
        ascii_bytes("test_tx_hash"@).len() == 12,
        ascii_bytes("test_no_tx_hash"@).len() == 15,
        ascii_bytes("test_tx_nonce"@).len() == 13,
        ascii_bytes("test_no_tx_nonce"@).len() == 16,
        ascii_bytes("test_emit_event"@).len() == 15,
        ascii_bytes("test_storage"@).len() == 12,
        ascii_bytes("test_origin"@).len() == 11,
        ascii_bytes("test_contract_call"@).len() == 18,
        ascii_bytes("test_service_call"@).len() == 17,
        ascii_bytes("_ret_self"@).len() == 9,
        ascii_bytes("_ret_caller_and_origin"@).len() == 22,
{
    reveal_strlit("test_load_args");
    reveal_strlit("test_load_json_args");
    reveal_strlit("test_cycle_limit");
    reveal_strlit("test_cycle_used");
    reveal_strlit("test_cycle_price");
    reveal_strlit("test_caller");
    reveal_strlit("test_address");
    reveal_strlit("test_block_height");
    reveal_strlit("test_timestamp");
    reveal_strlit("test_extra");
    reveal_strlit("test_no_extra");
    reveal_strlit("test_tx_hash");
    reveal_strlit("test_no_tx_hash");
    reveal_strlit("test_tx_nonce");
    reveal_strlit("test_no_tx_nonce");
    reveal_strlit("test_emit_event");
    reveal_strlit("test_storage");
    reveal_strlit("test_origin");
    reveal_strlit("test_contract_call");
    reveal_strlit("test_service_call");
    reveal_strlit("_ret_self");
    reveal_strlit("_ret_caller_and_origin");
}

/// What one run of the builtin engine returns and changes, as a function of
/// the arguments, the executing frame's contract `cur`, its caller `clr`,
/// the chain origin `org`, the runtime's service name `svc`, and the state
/// before the run: storage `s0`, context `c0`.  `s1`, `used1` and `ev1` are
/// the storage, cycle usage and event log after the run, `r` its result.
/// The cascade mirrors the engine's dispatch order.
pub open spec fn builtin_spec(
    args: Seq<u8>,
    cur: Seq<u8>,
    clr: Seq<u8>,
    org: Seq<u8>,
    svc: Seq<u8>,
    reg: Seq<DeployedContract>,
    s0: Seq<crate::storage::StorageEntry>,
    s1: Seq<crate::storage::StorageEntry>,
    c0: ServiceContext,
    used1: u64,
    ev1: Seq<Event>,
    r: Result<Vec<u8>, ExecError>,
) -> bool {
    let m = method_of(args);
    let still = used1 == c0.meter.used && ev1 == c0.events@ && s1 == s0;
    if m is None {
        is_script_err(r) && still
    } else {
        let mm = m->Some_0;
        if mm == ascii_bytes("test_load_args"@) || mm == ascii_bytes("test_load_json_args"@) {
            ok_bytes(r, args) && still
        } else if mm == ascii_bytes("test_cycle_limit"@) {
            ok_bytes(r, dec_of(c0.meter.limit as nat)) && still
        } else if mm == ascii_bytes("test_cycle_used"@) {
            ok_bytes(r, dec_of(c0.meter.used as nat)) && still
        } else if mm == ascii_bytes("test_cycle_price"@) {
            ok_bytes(r, dec_of(c0.meter.price as nat)) && still
        } else if mm == ascii_bytes("test_caller"@) {
            ok_bytes(r, hex_of(clr)) && still
        } else if mm == ascii_bytes("test_address"@) {
            ok_bytes(r, hex_of(cur)) && still
        } else if mm == ascii_bytes("test_block_height"@) {
            ok_bytes(r, dec_of(c0.height as nat)) && still
        } else if mm == ascii_bytes("test_timestamp"@) {
            ok_bytes(r, dec_of(c0.timestamp as nat)) && still
        } else if mm == ascii_bytes("test_extra"@) || mm == ascii_bytes("test_no_extra"@) {
            ok_bytes(r, crate::context::extra_repr(c0.extra)) && still
        } else if mm == ascii_bytes("test_tx_hash"@) || mm == ascii_bytes("test_no_tx_hash"@) {
            ok_bytes(r, crate::context::tx_hash_repr(c0.tx_hash)) && still
        } else if mm == ascii_bytes("test_tx_nonce"@) || mm == ascii_bytes("test_no_tx_nonce"@) {
            ok_bytes(r, crate::context::nonce_repr(c0.nonce)) && still
        } else if mm == ascii_bytes("test_emit_event"@) {
            let msg = get_field(args, ascii_bytes("msg"@));
            if msg is None {
                is_script_err(r) && still
            } else if c0.meter.used + CYCLES_EMIT <= c0.meter.limit {
                &&& ok_bytes(r, ascii_bytes("emit success"@))
                &&& used1 == c0.meter.used + CYCLES_EMIT
                &&& ev1.len() == c0.events@.len() + 1
                &&& ev1.drop_last() == c0.events@
                &&& ev1.last().emitter@ == cur
                &&& ev1.last().data@ == msg->Some_0
                &&& s1 == s0
            } else {
                is_out_of_cycles(r) && ev1 == c0.events@
            }
        } else if mm == ascii_bytes("test_storage"@) {
            let key = get_field(args, ascii_bytes("key"@));
            let val = get_field(args, ascii_bytes("val"@));
            if key is None || val is None {
                is_script_err(r) && still
            } else if c0.meter.used + CYCLES_STORAGE_SET + CYCLES_STORAGE_GET <= c0.meter.limit {
                &&& ok_bytes(r, val->Some_0)
                &&& used1 == c0.meter.used + CYCLES_STORAGE_SET + CYCLES_STORAGE_GET
                &&& ev1 == c0.events@
                &&& lookup(s1, cur, key->Some_0) == Some(val->Some_0)
                &&& forall|a: Seq<u8>, k: Seq<u8>|
                    !(a == cur && k == key->Some_0) ==> lookup(s1, a, k) == lookup(s0, a, k)
            } else {
                is_out_of_cycles(r) && ev1 == c0.events@
            }
        } else if mm == ascii_bytes("test_origin"@) || mm == ascii_bytes("test_contract_call"@) {
            let a = get_field(args, ascii_bytes("address"@));
            let ca = get_field(args, ascii_bytes("call_args"@));
            if a is None || ca is None {
                is_script_err(r) && still
            } else if spec_address_from_hex(a->Some_0) is None {
                is_script_err(r) && still
            } else if c0.meter.used + CYCLES_CALL > c0.meter.limit {
                is_out_of_cycles(r) && ev1 == c0.events@
            } else if !is_deployed(reg, spec_address_from_hex(a->Some_0)->Some_0) {
                is_not_found(r) && used1 == c0.meter.used + CYCLES_CALL && ev1 == c0.events@
            } else {
                method_of(ca->Some_0) == Some(ascii_bytes("_ret_self"@)) ==> ({
                    &&& ok_bytes(r, ascii_bytes("self"@))
                    &&& used1 == c0.meter.used + CYCLES_CALL
                    &&& ev1 == c0.events@
                    &&& s1 == s0
                })
            }
        } else if mm == ascii_bytes("test_service_call"@) {
            let sn = get_field(args, ascii_bytes("call_service"@));
            let sm = get_field(args, ascii_bytes("call_method"@));
            let sp = get_field(args, ascii_bytes("call_payload"@));
            if sn is None || sm is None || sp is None {
                is_script_err(r) && still
            } else if sn->Some_0 != svc {
                is_not_found(r) && still
            } else if sm->Some_0 != ascii_bytes("exec"@) {
                is_not_found(r) && still
            } else {
                let pa = get_field(sp->Some_0, ascii_bytes("address"@));
                let pargs = get_field(sp->Some_0, ascii_bytes("args"@));
                if pa is None || pargs is None {
                    is_script_err(r) && still
                } else if spec_address_from_hex(pa->Some_0) is None {
                    is_script_err(r) && still
                } else if c0.meter.used + CYCLES_CALL > c0.meter.limit {
                    is_out_of_cycles(r) && ev1 == c0.events@
                } else if !is_deployed(reg, spec_address_from_hex(pa->Some_0)->Some_0) {
                    is_not_found(r) && used1 == c0.meter.used + CYCLES_CALL && ev1 == c0.events@
                } else {
                    method_of(pargs->Some_0) == Some(ascii_bytes("_ret_self"@)) ==> ({
                        &&& ok_bytes(r, ascii_bytes("self"@))
                        &&& used1 == c0.meter.used + CYCLES_CALL
                        &&& ev1 == c0.events@
                        &&& s1 == s0
                    })
                }
            }
        } else if mm == ascii_bytes("_ret_self"@) {
            ok_bytes(r, ascii_bytes("self"@)) && still
        } else if mm == ascii_bytes("_ret_caller_and_origin"@) {
            ok_bytes(r, ret_caller_origin(clr, org)) && still
        } else {
            is_script_err(r) && still
        }
    }
}

impl Runtime {
    /// The `call_contract` host primitive: charges the nested-call cost
    /// against the shared meter, then re-enters `exec` with a new frame on
    /// the same context.
    fn call_contract(&mut self, ctx: &mut ServiceContext, address: Address, args: Vec<u8>) -> (r:
        Result<Vec<u8>, ExecError>)
        requires
            old(ctx).wf(),
        ensures
            step_frame(*old(self), *final(self), *old(ctx), *final(ctx)),
            final(self).contracts@ == old(self).contracts@,
            final(self).deploy_count == old(self).deploy_count,
            r is Err ==> final(self).storage@ == old(self).storage@,
            is_out_of_cycles(r) ==> final(ctx).meter.used == final(ctx).meter.limit,
            old(ctx).meter.used + CYCLES_CALL > old(ctx).meter.limit ==> is_out_of_cycles(r)
                && final(ctx).events@ == old(ctx).events@,
            old(ctx).meter.used + CYCLES_CALL <= old(ctx).meter.limit && !is_deployed(
                old(self).contracts@,
                address@,
            ) ==> ({
                &&& is_not_found(r)
                &&& final(ctx).meter.used == old(ctx).meter.used + CYCLES_CALL
                &&& final(ctx).events@ == old(ctx).events@
            }),
            old(ctx).meter.used + CYCLES_CALL <= old(ctx).meter.limit && is_deployed(
                old(self).contracts@,
                address@,
            ) && method_of(args@) == Some(ascii_bytes("_ret_self"@)) ==> ({
                &&& ok_bytes(r, ascii_bytes("self"@))
                &&& final(ctx).meter.used == old(ctx).meter.used + CYCLES_CALL
                &&& final(ctx).events@ == old(ctx).events@
                &&& final(self).storage@ == old(self).storage@
            }),
        decreases ctx.meter.limit - ctx.meter.used, 0int,
    {
        proof {
            lemma_probe_name_lengths();
        }
        match ctx.meter.charge(CYCLES_CALL) {
            Err(e) => Err(e),
            Ok(_) => self.exec(ctx, ExecPayload::new(address, args)),
        }
    }

    /// The `call_service` host primitive: resolves the service name, then
    /// the method, decodes the opaque payload it hands on verbatim, charges
    /// the nested-call cost and re-enters `exec`.  An unknown service or
    /// method is reported as not found; a malformed payload as a script
    /// error.
    fn call_service(
        &mut self,
        ctx: &mut ServiceContext,
        name: Vec<u8>,
        method: Vec<u8>,
        payload: Vec<u8>,
    ) -> (r: Result<Vec<u8>, ExecError>)
        requires
            old(ctx).wf(),
        ensures
            step_frame(*old(self), *final(self), *old(ctx), *final(ctx)),
            final(self).contracts@ == old(self).contracts@,
            final(self).deploy_count == old(self).deploy_count,
            r is Err ==> final(self).storage@ == old(self).storage@,
            is_out_of_cycles(r) ==> final(ctx).meter.used == final(ctx).meter.limit,
            name@ != old(self).service_name@ ==> ({
                &&& is_not_found(r)
                &&& final(ctx).meter.used == old(ctx).meter.used
                &&& final(ctx).events@ == old(ctx).events@
            }),
            name@ == old(self).service_name@ && method@ != ascii_bytes("exec"@) ==> ({
                &&& is_not_found(r)
                &&& final(ctx).meter.used == old(ctx).meter.used
                &&& final(ctx).events@ == old(ctx).events@
            }),
            name@ == old(self).service_name@ && method@ == ascii_bytes("exec"@) ==> ({
                let pa = get_field(payload@, ascii_bytes("address"@));
                let pargs = get_field(payload@, ascii_bytes("args"@));
                let malformed = pa is None || pargs is None || spec_address_from_hex(
                    pa->Some_0,
                ) is None;
                &&& malformed ==> ({
                    &&& is_script_err(r)
                    &&& final(ctx).meter.used == old(ctx).meter.used
                    &&& final(ctx).events@ == old(ctx).events@
                })
                &&& !malformed && old(ctx).meter.used + CYCLES_CALL > old(ctx).meter.limit
                    ==> is_out_of_cycles(r) && final(ctx).events@ == old(ctx).events@
                &&& !malformed && old(ctx).meter.used + CYCLES_CALL <= old(ctx).meter.limit
                    && !is_deployed(
                    old(self).contracts@,
                    spec_address_from_hex(pa->Some_0)->Some_0,
                ) ==> ({
                    &&& is_not_found(r)
                    &&& final(ctx).meter.used == old(ctx).meter.used + CYCLES_CALL
                    &&& final(ctx).events@ == old(ctx).events@
                })
                &&& !malformed && old(ctx).meter.used + CYCLES_CALL <= old(ctx).meter.limit
                    && is_deployed(
                    old(self).contracts@,
                    spec_address_from_hex(pa->Some_0)->Some_0,
                ) && method_of(pargs->Some_0) == Some(ascii_bytes("_ret_self"@)) ==> ({
                    &&& ok_bytes(r, ascii_bytes("self"@))
                    &&& final(ctx).meter.used == old(ctx).meter.used + CYCLES_CALL
                    &&& final(ctx).events@ == old(ctx).events@
                    &&& final(self).storage@ == old(self).storage@
                })
            }),
        decreases ctx.meter.limit - ctx.meter.used, 0int,
    {
        proof {
            lemma_probe_name_lengths();
        }
        match self.get_service(&name) {
            Ok(_) => {},
            Err(e) => {
                return Err(ExecError::from(e));
            },
        }
        proof {
            reveal_strlit("exec");
            reveal_strlit("address");
            reveal_strlit("args");
            reveal_strlit("service method");
            reveal_strlit("missing call address or args");
            reveal_strlit("invalid call address hex");
        }
        let exec_name = lit_bytes("exec");
        if !bytes_eq(&method, &exec_name) {
            return Err(ExecError::NotFound { what: lit_bytes("service method") });
        }
        let pa = match get_field_bytes(&payload, &lit_bytes("address")) {
            Some(x) => x,
            None => {
                return Err(
                    ExecError::ScriptError { msg: lit_bytes("missing call address or args") },
                );
            },
        };
        let pargs = match get_field_bytes(&payload, &lit_bytes("args")) {
            Some(x) => x,
            None => {
                return Err(
                    ExecError::ScriptError { msg: lit_bytes("missing call address or args") },
                );
            },
        };
        let target = match Address::from_hex(&pa) {
            Some(t) => t,
            None => {
                return Err(ExecError::ScriptError { msg: lit_bytes("invalid call address hex") });
            },
        };
        match ctx.meter.charge(CYCLES_CALL) {
            Err(e) => Err(e),
            Ok(_) => self.exec(ctx, ExecPayload::new(target, pargs)),
        }
    }

    /// One run of the builtin engine in the current frame: reads the
    /// `method` member of the arguments and serves the host primitive it
    /// names.
    #[verifier::rlimit(100)]
    fn run_builtin(&mut self, ctx: &mut ServiceContext, args: &Vec<u8>) -> (r: Result<
        Vec<u8>,
        ExecError,
    >)
        requires
            old(ctx).wf(),
            old(ctx).stack@.len() > 0,
        ensures
            step_frame(*old(self), *final(self), *old(ctx), *final(ctx)),
            final(self).contracts@ == old(self).contracts@,
            final(self).deploy_count == old(self).deploy_count,
            is_out_of_cycles(r) ==> final(ctx).meter.used == final(ctx).meter.limit,
            builtin_spec(
                args@,
                old(ctx).stack@.last().contract@,
                old(ctx).stack@.last().caller@,
                old(ctx).stack@[0].caller@,
                old(self).service_name@,
                old(self).contracts@,
                old(self).storage@,
                final(self).storage@,
                *old(ctx),
                final(ctx).meter.used,
                final(ctx).events@,
                r,
            ),
        decreases ctx.meter.limit - ctx.meter.used, 1int,
    {
        proof {
            reveal_strlit("method");
            reveal_strlit("missing method");
            reveal_strlit("test_load_args");
            reveal_strlit("test_load_json_args");
            reveal_strlit("test_cycle_limit");
            reveal_strlit("test_cycle_used");
            reveal_strlit("test_cycle_price");
            reveal_strlit("test_caller");
            reveal_strlit("test_address");
            reveal_strlit("test_block_height");
            reveal_strlit("test_timestamp");
            reveal_strlit("test_extra");
            reveal_strlit("test_no_extra");
            reveal_strlit("test_tx_hash");
            reveal_strlit("test_no_tx_hash");
            reveal_strlit("test_tx_nonce");
            reveal_strlit("test_no_tx_nonce");
            reveal_strlit("test_emit_event");
            reveal_strlit("test_storage");
            reveal_strlit("test_origin");
            reveal_strlit("test_contract_call");
            reveal_strlit("test_service_call");
            reveal_strlit("_ret_self");
            reveal_strlit("_ret_caller_and_origin");
            reveal_strlit("msg");
            reveal_strlit("key");
            reveal_strlit("val");
            reveal_strlit("address");
            reveal_strlit("call_args");
            reveal_strlit("call_service");
            reveal_strlit("call_method");
            reveal_strlit("call_payload");
            reveal_strlit("emit success");
            reveal_strlit("self");
            reveal_strlit("missing event message");
            reveal_strlit("missing storage key or value");
            reveal_strlit("missing call address or args");
            reveal_strlit("invalid call address hex");
            reveal_strlit("missing service call members");
            reveal_strlit("unknown method");
            reveal_strlit("storage readback failed");
            reveal_strlit("{\"caller\":\"");
            reveal_strlit("\",\"origin\":\"");
            reveal_strlit("\"}");
        }
        let m = match get_field_bytes(args, &lit_bytes("method")) {
            Some(x) => x,
            None => {
                return Err(ExecError::ScriptError { msg: lit_bytes("missing method") });
            },
        };
        if bytes_eq(&m, &lit_bytes("test_load_args")) || bytes_eq(
            &m,
            &lit_bytes("test_load_json_args"),
        ) {
            Ok(copy_bytes(args))
        } else if bytes_eq(&m, &lit_bytes("test_cycle_limit")) {
            Ok(dec_bytes(ctx.meter.limit))
        } else if bytes_eq(&m, &lit_bytes("test_cycle_used")) {
            Ok(dec_bytes(ctx.meter.used))
        } else if bytes_eq(&m, &lit_bytes("test_cycle_price")) {
            Ok(dec_bytes(ctx.meter.price))
        } else if bytes_eq(&m, &lit_bytes("test_caller")) {
            Ok(ctx.stack.current_caller().as_hex())
        } else if bytes_eq(&m, &lit_bytes("test_address")) {
            Ok(ctx.stack.current_contract().as_hex())
        } else if bytes_eq(&m, &lit_bytes("test_block_height")) {
            Ok(dec_bytes(ctx.height))
        } else if bytes_eq(&m, &lit_bytes("test_timestamp")) {
            Ok(dec_bytes(ctx.timestamp))
        } else if bytes_eq(&m, &lit_bytes("test_extra")) || bytes_eq(
            &m,
            &lit_bytes("test_no_extra"),
        ) {
            Ok(ctx.extra_bytes())
        } else if bytes_eq(&m, &lit_bytes("test_tx_hash")) || bytes_eq(
            &m,
            &lit_bytes("test_no_tx_hash"),
        ) {
            Ok(ctx.tx_hash_bytes())
        } else if bytes_eq(&m, &lit_bytes("test_tx_nonce")) || bytes_eq(
            &m,
            &lit_bytes("test_no_tx_nonce"),
        ) {
            Ok(ctx.nonce_bytes())
        } else if bytes_eq(&m, &lit_bytes("test_emit_event")) {
            let msg = match get_field_bytes(args, &lit_bytes("msg")) {
                Some(x) => x,
                None => {
                    return Err(ExecError::ScriptError { msg: lit_bytes("missing event message") });
                },
            };
            match ctx.meter.charge(CYCLES_EMIT) {
                Err(e) => {
                    return Err(e);
                },
                Ok(_) => {},
            }
            let emitter = ctx.stack.current_contract().clone();
            ctx.events.push(Event { emitter, data: msg });
            proof {
                assert(ctx.events@.drop_last() =~= old(ctx).events@);
            }
            Ok(lit_bytes("emit success"))
        } else if bytes_eq(&m, &lit_bytes("test_storage")) {
            let key = match get_field_bytes(args, &lit_bytes("key")) {
                Some(x) => x,
                None => {
                    return Err(
                        ExecError::ScriptError { msg: lit_bytes("missing storage key or value") },
                    );
                },
            };
            let val = match get_field_bytes(args, &lit_bytes("val")) {
                Some(x) => x,
                None => {
                    return Err(
                        ExecError::ScriptError { msg: lit_bytes("missing storage key or value") },
                    );
                },
            };
            match ctx.meter.charge(CYCLES_STORAGE_SET) {
                Err(e) => {
                    return Err(e);
                },
                Ok(_) => {},
            }
            let owner = ctx.stack.current_contract().clone();
            let key_back = copy_bytes(&key);
            self.storage.set(&owner, key, val);
            match ctx.meter.charge(CYCLES_STORAGE_GET) {
                Err(e) => {
                    return Err(e);
                },
                Ok(_) => {},
            }
            match self.storage.get(&owner, &key_back) {
                Some(v) => Ok(v),
                None => {
                    // The readback cannot miss: the write just above pinned
                    // this key, as the proof shows.
                    proof {
                        assert(false);
                    }
                    Err(ExecError::StorageError { msg: lit_bytes("storage readback failed") })
                },
            }
        } else if bytes_eq(&m, &lit_bytes("test_origin")) || bytes_eq(
            &m,
            &lit_bytes("test_contract_call"),
        ) {
            let ah = match get_field_bytes(args, &lit_bytes("address")) {
                Some(x) => x,
                None => {
                    return Err(
                        ExecError::ScriptError { msg: lit_bytes("missing call address or args") },
                    );
                },
            };
            let ca = match get_field_bytes(args, &lit_bytes("call_args")) {
                Some(x) => x,
                None => {
                    return Err(
                        ExecError::ScriptError { msg: lit_bytes("missing call address or args") },
                    );
                },
            };
            let target = match Address::from_hex(&ah) {
                Some(t) => t,
                None => {
                    return Err(
                        ExecError::ScriptError { msg: lit_bytes("invalid call address hex") },
                    );
                },
            };
            self.call_contract(ctx, target, ca)
        } else if bytes_eq(&m, &lit_bytes("test_service_call")) {
            let sn = match get_field_bytes(args, &lit_bytes("call_service")) {
                Some(x) => x,
                None => {
                    return Err(
                        ExecError::ScriptError { msg: lit_bytes("missing service call members") },
                    );
                },
            };
            let sm = match get_field_bytes(args, &lit_bytes("call_method")) {
                Some(x) => x,
                None => {
                    return Err(
                        ExecError::ScriptError { msg: lit_bytes("missing service call members") },
                    );
                },
            };
            let sp = match get_field_bytes(args, &lit_bytes("call_payload")) {
                Some(x) => x,
                None => {
                    return Err(
                        ExecError::ScriptError { msg: lit_bytes("missing service call members") },
                    );
                },
            };
            self.call_service(ctx, sn, sm, sp)
        } else if bytes_eq(&m, &lit_bytes("_ret_self")) {
            Ok(lit_bytes("self"))
        } else if bytes_eq(&m, &lit_bytes("_ret_caller_and_origin")) {
            let mut out = lit_bytes("{\"caller\":\"");
            let ch = ctx.stack.current_caller().as_hex();
            append_bytes(&mut out, &ch);
            let mid = lit_bytes("\",\"origin\":\"");
            append_bytes(&mut out, &mid);
            let oh = ctx.stack.origin().as_hex();
            append_bytes(&mut out, &oh);
            let tail = lit_bytes("\"}");
            append_bytes(&mut out, &tail);
            proof {
                assert(out@ =~= ret_caller_origin(
                    old(ctx).stack@.last().caller@,
                    old(ctx).stack@[0].caller@,
                ));
            }
            Ok(out)
        } else {
            Err(ExecError::ScriptError { msg: lit_bytes("unknown method") })
        }
    }

    /// The interpreter adapter: runs contract code under the engine it was
    /// deployed with, exposing the same host primitives whatever the
    /// engine.
    fn run_contract(
        &mut self,
        ctx: &mut ServiceContext,
        intp: InterpreterType,
        code: &Vec<u8>,
        args: &Vec<u8>,
    ) -> (r: Result<Vec<u8>, ExecError>)
        requires
            old(ctx).wf(),
            old(ctx).stack@.len() > 0,
        ensures
            step_frame(*old(self), *final(self), *old(ctx), *final(ctx)),
            final(self).contracts@ == old(self).contracts@,
            final(self).deploy_count == old(self).deploy_count,
            is_out_of_cycles(r) ==> final(ctx).meter.used == final(ctx).meter.limit,
            builtin_spec(
                args@,
                old(ctx).stack@.last().contract@,
                old(ctx).stack@.last().caller@,
                old(ctx).stack@[0].caller@,
                old(self).service_name@,
                old(self).contracts@,
                old(self).storage@,
                final(self).storage@,
                *old(ctx),
                final(ctx).meter.used,
                final(ctx).events@,
                r,
            ),
        decreases ctx.meter.limit - ctx.meter.used, 2int,
    {
        let _ = code;
        match intp {
            InterpreterType::Builtin => self.run_builtin(ctx, args),
        }
    }

    /// Executes a deployed contract: looks its code and engine up, pushes
    /// the frame (caller is the previous frame's contract, or the
    /// invocation's caller for the first frame), runs the engine, pops the
    /// frame on every exit path, and on failure discards every storage
    /// write this frame and its descendants staged.  An unknown target
    /// address fails with `NotFound` and changes nothing.
    pub fn exec(&mut self, ctx: &mut ServiceContext, payload: ExecPayload) -> (r: Result<
        Vec<u8>,
        ExecError,
    >)
        requires
            old(ctx).wf(),
        ensures
            step_frame(*old(self), *final(self), *old(ctx), *final(ctx)),
            final(self).contracts@ == old(self).contracts@,
            final(self).deploy_count == old(self).deploy_count,
            r is Err ==> final(self).storage@ == old(self).storage@,
            is_out_of_cycles(r) ==> final(ctx).meter.used == final(ctx).meter.limit,
            !is_deployed(old(self).contracts@, payload.address@) ==> is_not_found(r) && quiet(
                *old(ctx),
                *final(ctx),
                old(self).storage@,
                final(self).storage@,
            ),
            is_deployed(old(self).contracts@, payload.address@) ==> builtin_spec(
                payload.args@,
                payload.address@,
                next_caller(old(ctx).stack@, old(ctx).caller@),
                crate::stack::chain_origin(old(ctx).stack@, old(ctx).caller@),
                old(self).service_name@,
                old(self).contracts@,
                old(self).storage@,
                final(self).storage@,
                *old(ctx),
                final(ctx).meter.used,
                final(ctx).events@,
                r,
            ),
        decreases ctx.meter.limit - ctx.meter.used, 3int,
    {
        let ExecPayload { address, args } = payload;
        match self.find_contract(&address) {
            None => {
                proof {
                    reveal_strlit("contract");
                }
                Err(ExecError::NotFound { what: lit_bytes("contract") })
            },
            Some(i) => {
                let intp = self.contracts[i].intp_type;
                let code = copy_bytes(&self.contracts[i].code);
                ctx.stack.push_call(address, &ctx.caller);
                let mark = self.storage.mark();
                let r = self.run_contract(ctx, intp, &code, &args);
                ctx.stack.pop_call();
                proof {
                    assert(ctx.stack@ =~= old(ctx).stack@);
                }
                match r {
                    Ok(v) => Ok(v),
                    Err(e) => {
                        self.storage.discard_to(mark);
                        proof {
                            assert(self.storage@ =~= old(self).storage@);
                        }
                        Err(e)
                    },
                }
            },
        }
    }
}

} // verus!
