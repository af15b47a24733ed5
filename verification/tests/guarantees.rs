use chain_runtime::context::{ServiceContext, ServiceContextParams};
use chain_runtime::runtime::Runtime;
use chain_runtime::types::{Address, DeployPayload, ExecPayload, ExecError, InterpreterType};

const CALLER: &str = "0x0000000000000000000000000000000000000001";

fn addr(h: &str) -> Address {
    Address::from_hex(&h.as_bytes().to_vec()).expect("caller address")
}

fn params(limit: u64, used: u64) -> ServiceContextParams {
    ServiceContextParams {
        tx_hash: None,
        nonce: None,
        cycles_limit: limit,
        cycles_price: 1,
        cycles_used: used,
        caller: addr(CALLER),
        height: 1,
        timestamp: 0,
        extra: None,
        service_name: b"service_name".to_vec(),
        service_method: b"service_method".to_vec(),
        service_payload: b"service_payload".to_vec(),
    }
}

fn deploy(service: &mut Runtime, init_args: &str) -> Address {
    let mut ctx = ServiceContext::new(params(1_000_000, 0));
    let payload = DeployPayload {
        code: b"00".to_vec(),
        intp_type: InterpreterType::Builtin,
        init_args: init_args.as_bytes().to_vec(),
    };
    service.deploy(&mut ctx, payload).expect("deploy").address
}

fn hex_string(bytes: Vec<u8>) -> String {
    String::from_utf8(bytes).expect("hex is ascii")
}

fn escape(s: &str) -> String {
    s.replace('\\', "\\\\").replace('"', "\\\"")
}

#[test]
fn deploy_derives_tagged_counter_addresses() {
    let mut service = Runtime::new(b"riscv".to_vec());
    let first = deploy(&mut service, "");
    let second = deploy(&mut service, "");

    let zeros22 = "0".repeat(22);
    assert_eq!(
        hex_string(first.as_hex()),
        format!("c0{}0000000000000000", zeros22)
    );
    assert_eq!(
        hex_string(second.as_hex()),
        format!("c0{}0000000000000001", zeros22)
    );
}

#[test]
fn deploy_with_init_args_echoes_them() {
    let mut service = Runtime::new(b"riscv".to_vec());
    let mut ctx = ServiceContext::new(params(1_000_000, 5));
    let payload = DeployPayload {
        code: b"00".to_vec(),
        intp_type: InterpreterType::Builtin,
        init_args: b"".to_vec(),
    };
    let ret = service.deploy(&mut ctx, payload).expect("deploy no init");
    assert_eq!(ret.init_ret, b"".to_vec());
    assert_eq!(ctx.get_cycles_used(), 5);
    assert_eq!(ctx.get_events().len(), 0);

    let payload = DeployPayload {
        code: b"00".to_vec(),
        intp_type: InterpreterType::Builtin,
        init_args: b"start it".to_vec(),
    };
    let ret = service.deploy(&mut ctx, payload).expect("deploy with init");
    assert_eq!(ret.init_ret, b"start it".to_vec());
}

#[test]
fn deploy_rejects_malformed_code_hex() {
    let mut service = Runtime::new(b"riscv".to_vec());
    let mut ctx = ServiceContext::new(params(1_000_000, 0));
    let payload = DeployPayload {
        code: b"zz".to_vec(),
        intp_type: InterpreterType::Builtin,
        init_args: b"".to_vec(),
    };
    match service.deploy(&mut ctx, payload) {
        Err(ExecError::ScriptError { .. }) => {}
        other => panic!("expected a script error, got {:?}", other),
    }
}

#[test]
fn exec_of_unknown_address_is_not_found() {
    let mut service = Runtime::new(b"riscv".to_vec());
    deploy(&mut service, "");
    let mut ctx = ServiceContext::new(params(1_000_000, 0));
    let stranger = addr("0x00000000000000000000000000000000000000aa");
    let payload = ExecPayload::new(stranger, "{\"method\":\"_ret_self\"}".as_bytes().to_vec());
    match service.exec(&mut ctx, payload) {
        Err(ExecError::NotFound { .. }) => {}
        other => panic!("expected not found, got {:?}", other),
    }
    assert_eq!(ctx.get_cycles_used(), 0);
}

#[test]
fn unknown_method_is_a_script_error() {
    let mut service = Runtime::new(b"riscv".to_vec());
    let address = deploy(&mut service, "");
    let mut ctx = ServiceContext::new(params(1_000_000, 0));
    let payload = ExecPayload::new(address, "{\"method\":\"no_such_probe\"}".as_bytes().to_vec());
    match service.exec(&mut ctx, payload) {
        Err(ExecError::ScriptError { .. }) => {}
        other => panic!("expected a script error, got {:?}", other),
    }
}

#[test]
fn unknown_service_is_not_found() {
    let mut service = Runtime::new(b"riscv".to_vec());
    let first = deploy(&mut service, "");
    let second = deploy(&mut service, "");

    let call_payload = format!(
        "{{\"address\":\"{}\",\"args\":\"{}\"}}",
        hex_string(second.as_hex()),
        "{\\\"method\\\":\\\"_ret_self\\\"}",
    );
    let args = format!(
        "{{\"call_method\":\"exec\",\"call_payload\":\"{}\",\"call_service\":\"elsewhere\",\"method\":\"test_service_call\"}}",
        call_payload.replace('\\', "\\\\").replace('"', "\\\""),
    )
    .into_bytes();

    let mut ctx = ServiceContext::new(params(1_000_000, 0));
    match service.exec(&mut ctx, ExecPayload::new(first, args)) {
        Err(ExecError::NotFound { .. }) => {}
        other => panic!("expected not found, got {:?}", other),
    }
}

#[test]
fn exhausted_budget_pins_usage_at_the_limit() {
    let mut service = Runtime::new(b"riscv".to_vec());
    let address = deploy(&mut service, "");

    // The budget is already spent: emitting must fail, not degrade.
    let mut ctx = ServiceContext::new(params(3, 3));
    let args = "{\"method\":\"test_emit_event\",\"msg\":\"over\"}".as_bytes().to_vec();
    match service.exec(&mut ctx, ExecPayload::new(address.clone(), args)) {
        Err(ExecError::OutOfCycles) => {}
        other => panic!("expected out of cycles, got {:?}", other),
    }
    assert_eq!(ctx.get_cycles_used(), 3);
    assert_eq!(ctx.get_events().len(), 0);

    // One cycle left of two needed: the write is rolled back and usage is
    // pinned exactly at the limit, never beyond it.
    let mut ctx = ServiceContext::new(params(4, 3));
    let args = "{\"key\":\"k\",\"method\":\"test_storage\",\"val\":\"v\"}"
        .as_bytes()
        .to_vec();
    match service.exec(&mut ctx, ExecPayload::new(address.clone(), args)) {
        Err(ExecError::OutOfCycles) => {}
        other => panic!("expected out of cycles, got {:?}", other),
    }
    assert_eq!(ctx.get_cycles_used(), 4);
    assert_eq!(service.storage.get(&address, &b"k".to_vec()), None);
}

#[test]
fn cycle_usage_is_monotone_across_a_chain() {
    let mut service = Runtime::new(b"riscv".to_vec());
    let first = deploy(&mut service, "");
    let second = deploy(&mut service, "");

    let args = format!(
        "{{\"address\":\"{}\",\"call_args\":\"{}\",\"method\":\"test_contract_call\"}}",
        hex_string(second.as_hex()),
        "{\\\"method\\\":\\\"_ret_self\\\"}",
    )
    .into_bytes();

    let mut ctx = ServiceContext::new(params(1_000, 7));
    let before = ctx.get_cycles_used();
    service
        .exec(&mut ctx, ExecPayload::new(first, args))
        .expect("nested call");
    let after = ctx.get_cycles_used();
    assert!(after >= before);
    assert!(after <= ctx.get_cycles_limit());
    // Exactly the one nested call was charged.
    assert_eq!(after, before + 1);
}

#[test]
fn nested_call_to_unknown_address_is_not_found() {
    let mut service = Runtime::new(b"riscv".to_vec());
    let first = deploy(&mut service, "");

    let args = format!(
        "{{\"address\":\"{}\",\"call_args\":\"{}\",\"method\":\"test_contract_call\"}}",
        "00000000000000000000000000000000000000ee",
        "{\\\"method\\\":\\\"_ret_self\\\"}",
    )
    .into_bytes();

    let mut ctx = ServiceContext::new(params(1_000, 2));
    match service.exec(&mut ctx, ExecPayload::new(first, args)) {
        Err(ExecError::NotFound { .. }) => {}
        other => panic!("expected not found, got {:?}", other),
    }
    // The nested-call charge stands: charges are never refunded.
    assert_eq!(ctx.get_cycles_used(), 3);
}

#[test]
fn nested_call_without_budget_is_out_of_cycles() {
    let mut service = Runtime::new(b"riscv".to_vec());
    let first = deploy(&mut service, "");
    let second = deploy(&mut service, "");

    let args = format!(
        "{{\"address\":\"{}\",\"call_args\":\"{}\",\"method\":\"test_contract_call\"}}",
        hex_string(second.as_hex()),
        "{\\\"method\\\":\\\"_ret_self\\\"}",
    )
    .into_bytes();

    let mut ctx = ServiceContext::new(params(5, 5));
    match service.exec(&mut ctx, ExecPayload::new(first, args)) {
        Err(ExecError::OutOfCycles) => {}
        other => panic!("expected out of cycles, got {:?}", other),
    }
    assert_eq!(ctx.get_cycles_used(), 5);
}

#[test]
fn storage_of_one_contract_is_invisible_to_another() {
    let mut service = Runtime::new(b"riscv".to_vec());
    let first = deploy(&mut service, "");
    let second = deploy(&mut service, "");

    let mut ctx = ServiceContext::new(params(1_000, 0));
    let args = "{\"key\":\"carmen\",\"method\":\"test_storage\",\"val\":\"red\"}"
        .as_bytes()
        .to_vec();
    service
        .exec(&mut ctx, ExecPayload::new(first.clone(), args))
        .expect("write under first");

    let args = "{\"key\":\"carmen\",\"method\":\"test_storage\",\"val\":\"blue\"}"
        .as_bytes()
        .to_vec();
    service
        .exec(&mut ctx, ExecPayload::new(second.clone(), args))
        .expect("write under second");

    assert_eq!(
        service.storage.get(&first, &b"carmen".to_vec()),
        Some(b"red".to_vec())
    );
    assert_eq!(
        service.storage.get(&second, &b"carmen".to_vec()),
        Some(b"blue".to_vec())
    );
    assert_eq!(service.storage.get(&first, &b"other".to_vec()), None);
}

#[test]
fn origin_is_constant_across_a_depth_three_chain() {
    let mut service = Runtime::new(b"riscv".to_vec());
    let a = deploy(&mut service, "");
    let b = deploy(&mut service, "");
    let c = deploy(&mut service, "");

    let inner = "{\"method\":\"_ret_caller_and_origin\"}".to_string();
    let mid = format!(
        "{{\"address\":\"{}\",\"call_args\":\"{}\",\"method\":\"test_contract_call\"}}",
        hex_string(c.as_hex()),
        escape(&inner),
    );
    let outer = format!(
        "{{\"address\":\"{}\",\"call_args\":\"{}\",\"method\":\"test_contract_call\"}}",
        hex_string(b.as_hex()),
        escape(&mid),
    );

    let mut ctx = ServiceContext::new(params(1_000, 0));
    let ret = service
        .exec(&mut ctx, ExecPayload::new(a, outer.into_bytes()))
        .expect("depth three chain");

    // The bottom frame sees its immediate caller, one frame up, while the
    // origin is still the top-level transaction sender.
    let expected = format!(
        "{{\"caller\":\"{}\",\"origin\":\"{}\"}}",
        hex_string(b.as_hex()),
        &CALLER[2..],
    );
    assert_eq!(String::from_utf8(ret).unwrap(), expected);
    // One charge per nested call entered.
    assert_eq!(ctx.get_cycles_used(), 2);
}

#[test]
fn empty_present_extra_differs_from_absent_extra() {
    let mut service = Runtime::new(b"riscv".to_vec());
    let address = deploy(&mut service, "");

    let mut p = params(1_000, 0);
    p.extra = Some(Vec::new());
    let mut ctx = ServiceContext::new(p);
    let args = "{\"method\":\"test_extra\"}".as_bytes().to_vec();
    let ret = service
        .exec(&mut ctx, ExecPayload::new(address.clone(), args))
        .expect("empty extra");
    assert_eq!(ret, b"".to_vec());

    let mut ctx = ServiceContext::new(params(1_000, 0));
    let args = "{\"method\":\"test_extra\"}".as_bytes().to_vec();
    let ret = service
        .exec(&mut ctx, ExecPayload::new(address, args))
        .expect("absent extra");
    assert_eq!(ret, b"no extra".to_vec());
}

#[test]
fn emitted_event_carries_the_frame_address() {
    let mut service = Runtime::new(b"riscv".to_vec());
    let address = deploy(&mut service, "");

    let mut ctx = ServiceContext::new(params(1_000, 0));
    let args = "{\"method\":\"test_emit_event\",\"msg\":\"emit test event\"}"
        .as_bytes()
        .to_vec();
    service
        .exec(&mut ctx, ExecPayload::new(address.clone(), args))
        .expect("emit");

    let events = ctx.get_events();
    assert_eq!(events.len(), 1);
    assert_eq!(events[0].data, b"emit test event".to_vec());
    assert_eq!(events[0].emitter.as_hex(), address.as_hex());
    assert_eq!(ctx.get_cycles_used(), 1);
}

#[test]
fn address_hex_parsing_round_trips_and_rejects() {
    let a = addr("0x00000000000000000000000000000000000000ff");
    assert_eq!(
        hex_string(a.as_hex()),
        "00000000000000000000000000000000000000ff"
    );

    // Without the prefix, either case.
    let b = Address::from_hex(&b"00000000000000000000000000000000000000FF".to_vec());
    assert_eq!(b.expect("uppercase").as_hex(), a.as_hex());

    // Wrong width and non-digits are rejected.
    assert!(Address::from_hex(&b"0x00ff".to_vec()).is_none());
    assert!(
        Address::from_hex(&b"0x00000000000000000000000000000000000000zz".to_vec()).is_none()
    );
}

#[test]
fn list_service_name_names_the_runtime() {
    let service = Runtime::new(b"riscv".to_vec());
    let names = service.list_service_name();
    assert_eq!(names, vec![b"riscv".to_vec()]);
}
