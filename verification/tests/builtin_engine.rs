use chain_runtime::context::{ServiceContext, ServiceContextParams};
use chain_runtime::runtime::Runtime;
use chain_runtime::types::{Address, DeployPayload, Digest, ExecPayload, InterpreterType};
use std::time::{SystemTime, UNIX_EPOCH};

const CYCLE_LIMIT: u64 = 1024 * 1024 * 1024;
const CALLER: &str = "0x0000000000000000000000000000000000000001";

struct TestContext {
    count: u64,
    height: u64,
}

impl TestContext {
    fn fresh() -> Self {
        TestContext { count: 1, height: 1 }
    }

    fn make(&mut self) -> ServiceContext {
        ServiceContext::new(self.new_params())
    }

    fn new_params(&mut self) -> ServiceContextParams {
        self.count += 1;
        self.height += 1;

        let mut hash_bytes = vec![0u8; 32];
        hash_bytes[31] = (self.count & 0xff) as u8;

        ServiceContextParams {
            tx_hash: Some(Digest::from_bytes(hash_bytes)),
            nonce: None,
            cycles_limit: CYCLE_LIMIT,
            cycles_price: 1,
            cycles_used: 3,
            caller: addr(CALLER),
            height: self.height,
            timestamp: 0,
            extra: None,
            service_name: b"service_name".to_vec(),
            service_method: b"service_method".to_vec(),
            service_payload: b"service_payload".to_vec(),
        }
    }
}

fn addr(h: &str) -> Address {
    Address::from_hex(&h.as_bytes().to_vec()).expect("ctx caller")
}

fn new_riscv_service() -> Runtime {
    Runtime::new(b"riscv".to_vec())
}

fn hex_string(bytes: Vec<u8>) -> String {
    String::from_utf8(bytes).expect("hex is ascii")
}

fn escape(s: &str) -> String {
    s.replace('\\', "\\\\").replace('"', "\\\"")
}

fn deploy_test_code(service: &mut Runtime, context: &mut TestContext) -> Address {
    // No init
    let payload = DeployPayload {
        code: b"74657374636f6465".to_vec(),
        intp_type: InterpreterType::Builtin,
        init_args: b"".to_vec(),
    };

    let mut ctx = context.make();
    let ret = service.deploy(&mut ctx, payload).expect("deploy");
    assert_eq!(ret.init_ret, b"".to_vec());

    ret.address
}

#[test]
fn should_support_pvm_init() {
    let mut context = TestContext::fresh();
    let mut service = new_riscv_service();
    deploy_test_code(&mut service, &mut context);

    let payload = DeployPayload {
        code: b"74657374636f6465".to_vec(),
        intp_type: InterpreterType::Builtin,
        init_args: b"do init".to_vec(),
    };

    let mut ctx = context.make();
    let ret = service.deploy(&mut ctx, payload).expect("deploy");
    assert_eq!(ret.init_ret, b"do init".to_vec());
}

#[test]
fn should_support_pvm_load_args() {
    let mut context = TestContext::fresh();
    let mut service = new_riscv_service();
    let address = deploy_test_code(&mut service, &mut context);

    let args = "{\"method\":\"test_load_args\"}".as_bytes().to_vec();
    let payload = ExecPayload::new(address, args.clone());

    let mut ctx = context.make();
    let ret = service.exec(&mut ctx, payload).expect("load args");

    assert_eq!(ret, args);
}

#[test]
fn should_support_pvm_load_json_args() {
    let mut context = TestContext::fresh();
    let mut service = new_riscv_service();
    let address = deploy_test_code(&mut service, &mut context);

    let args = "{\"method\":\"test_load_json_args\"}".as_bytes().to_vec();
    let payload = ExecPayload::new(address, args.clone());

    let mut ctx = context.make();
    let ret = service.exec(&mut ctx, payload).expect("load jsonn args");

    assert_eq!(ret, args);
}

#[test]
fn should_support_pvm_cycle_limit() {
    let mut context = TestContext::fresh();
    let mut service = new_riscv_service();
    let address = deploy_test_code(&mut service, &mut context);

    let args = "{\"method\":\"test_cycle_limit\"}".as_bytes().to_vec();
    let payload = ExecPayload::new(address, args);

    let mut ctx = context.make();
    let ret = service.exec(&mut ctx, payload).expect("load cycle limit");

    let ret: u64 = String::from_utf8(ret).unwrap().parse().expect("cycle limit");
    assert_eq!(ret, CYCLE_LIMIT);
}

#[test]
fn should_support_pvm_cycle_used() {
    let mut context = TestContext::fresh();
    let mut service = new_riscv_service();
    let address = deploy_test_code(&mut service, &mut context);

    let args = "{\"method\":\"test_cycle_used\"}".as_bytes().to_vec();
    let payload = ExecPayload::new(address, args);

    let mut ctx = context.make();
    let ret = service.exec(&mut ctx, payload).expect("load cycle used");

    // Hardcode in context make
    let ret: u64 = String::from_utf8(ret).unwrap().parse().expect("cycle used");
    assert_eq!(ret, 3);
}

#[test]
fn should_support_pvm_cycle_price() {
    let mut context = TestContext::fresh();
    let mut service = new_riscv_service();
    let address = deploy_test_code(&mut service, &mut context);

    let args = "{\"method\":\"test_cycle_price\"}".as_bytes().to_vec();
    let payload = ExecPayload::new(address, args);

    let mut ctx = context.make();
    let ret = service.exec(&mut ctx, payload).expect("load cycle price");

    // Hardcode in context make
    let ret: u64 = String::from_utf8(ret).unwrap().parse().expect("cycle price");
    assert_eq!(ret, 1);
}

#[test]
fn should_support_pvm_caller() {
    let mut context = TestContext::fresh();
    let mut service = new_riscv_service();
    let address = deploy_test_code(&mut service, &mut context);

    let args = "{\"method\":\"test_caller\"}".as_bytes().to_vec();
    let payload = ExecPayload::new(address, args);

    let mut ctx = context.make();
    let ret = service.exec(&mut ctx, payload).expect("load caller");

    assert_eq!(format!("0x{}", hex_string(ret)), CALLER);
}

#[test]
fn should_support_pvm_origin() {
    let mut context = TestContext::fresh();
    let mut service = new_riscv_service();
    let address = deploy_test_code(&mut service, &mut context);

    // Deploy another test code
    let tc_address = deploy_test_code(&mut service, &mut context);

    let args = format!(
        "{{\"address\":\"{}\",\"call_args\":\"{}\",\"method\":\"test_origin\"}}",
        hex_string(tc_address.as_hex()),
        escape("{\"method\":\"_ret_caller_and_origin\"}"),
    )
    .into_bytes();

    let payload = ExecPayload::new(address.clone(), args);

    let mut ctx = context.make();
    let ret = service
        .exec(&mut ctx, payload)
        .expect("call contract _ret_caller_and_origin");

    let expected = format!(
        "{{\"caller\":\"{}\",\"origin\":\"{}\"}}",
        hex_string(address.as_hex()),
        &CALLER[2..],
    );
    assert_eq!(String::from_utf8(ret).unwrap(), expected);
}

#[test]
fn should_support_pvm_address() {
    let mut context = TestContext::fresh();
    let mut service = new_riscv_service();
    let address = deploy_test_code(&mut service, &mut context);

    let args = "{\"method\":\"test_address\"}".as_bytes().to_vec();
    let payload = ExecPayload::new(address.clone(), args);

    let mut ctx = context.make();
    let ret = service.exec(&mut ctx, payload).expect("load address");

    assert_eq!(ret, address.as_hex());
}

#[test]
fn should_support_pvm_block_height() {
    let mut context = TestContext::fresh();
    let mut service = new_riscv_service();
    let address = deploy_test_code(&mut service, &mut context);

    let args = "{\"method\":\"test_block_height\"}".as_bytes().to_vec();
    let payload = ExecPayload::new(address, args);

    let mut ctx = context.make();
    let ret = service.exec(&mut ctx, payload).expect("load block height");

    let ret: u64 = String::from_utf8(ret).unwrap().parse().expect("block height");
    assert_eq!(ret, ctx.get_current_height());
}

#[test]
fn should_support_pvm_extra() {
    let mut context = TestContext::fresh();
    let mut service = new_riscv_service();
    let address = deploy_test_code(&mut service, &mut context);

    let args = "{\"method\":\"test_no_extra\"}".as_bytes().to_vec();
    let payload = ExecPayload::new(address.clone(), args);

    let mut ctx = context.make();
    let ret = service.exec(&mut ctx, payload).expect("test no extra");

    assert_eq!(ret, b"no extra".to_vec());

    // Should return extra data
    let extra = "final mixed ??? no !!!";
    let mut ctx_params = context.new_params();
    ctx_params.extra = Some(extra.as_bytes().to_vec());
    let mut ctx = ServiceContext::new(ctx_params);

    let args = "{\"method\":\"test_extra\"}".as_bytes().to_vec();
    let payload = ExecPayload::new(address, args);

    let ret = service.exec(&mut ctx, payload).expect("test extra");

    assert_eq!(ret, extra.as_bytes().to_vec());
}

#[test]
fn should_support_pvm_timestamp() {
    let mut context = TestContext::fresh();
    let mut service = new_riscv_service();
    let address = deploy_test_code(&mut service, &mut context);

    let args = "{\"method\":\"test_timestamp\"}".as_bytes().to_vec();
    let payload = ExecPayload::new(address, args);

    let now = SystemTime::now()
        .duration_since(UNIX_EPOCH)
        .expect("timestamp")
        .as_secs();

    let mut ctx_params = context.new_params();
    ctx_params.timestamp = now;
    let mut ctx = ServiceContext::new(ctx_params);

    let ret = service.exec(&mut ctx, payload).expect("load timestamp");
    let ret: u64 = String::from_utf8(ret).unwrap().parse().expect("timestamp");
    assert_eq!(ret, ctx.get_timestamp());
}

#[test]
fn should_support_pvm_emit_event() {
    let mut context = TestContext::fresh();
    let mut service = new_riscv_service();
    let address = deploy_test_code(&mut service, &mut context);

    let msg = "emit test event";
    let args = format!("{{\"method\":\"test_emit_event\",\"msg\":\"{}\"}}", msg).into_bytes();
    let payload = ExecPayload::new(address, args);

    let mut ctx = context.make();
    let ret = service.exec(&mut ctx, payload).expect("emit event");
    assert_eq!(ret, b"emit success".to_vec());

    let events = ctx.get_events();
    assert!(events.iter().any(|ev| ev.data == msg.as_bytes().to_vec()));
}

#[test]
fn should_support_pvm_tx_hash() {
    let mut context = TestContext::fresh();
    let mut service = new_riscv_service();
    let address = deploy_test_code(&mut service, &mut context);

    let args = "{\"method\":\"test_tx_hash\"}".as_bytes().to_vec();
    let payload = ExecPayload::new(address.clone(), args);

    let mut ctx = context.make();
    let ret = service.exec(&mut ctx, payload).expect("test tx hash");

    assert_eq!(
        Some(ret),
        ctx.get_tx_hash().as_ref().map(|h| h.as_hex()),
        "should return tx hash"
    );

    // No tx hash
    let mut ctx_params = context.new_params();
    ctx_params.tx_hash = None;
    let mut ctx = ServiceContext::new(ctx_params);

    let args = "{\"method\":\"test_no_tx_hash\"}".as_bytes().to_vec();
    let payload = ExecPayload::new(address, args);

    let ret = service.exec(&mut ctx, payload).expect("test no tx hash");

    assert_eq!(ret, b"no tx hash".to_vec());
}

#[test]
fn should_support_pvm_tx_nonce() {
    let mut context = TestContext::fresh();
    let mut service = new_riscv_service();
    let address = deploy_test_code(&mut service, &mut context);

    let args = "{\"method\":\"test_no_tx_nonce\"}".as_bytes().to_vec();
    let payload = ExecPayload::new(address.clone(), args);

    let mut ctx = context.make();
    let ret = service.exec(&mut ctx, payload).expect("tx no nonce");

    assert_eq!(ret, b"no tx nonce".to_vec());

    // Should return tx nonce
    let mut nonce_bytes = vec![7u8; 32];
    nonce_bytes[0] = 1;
    let mut ctx_params = context.new_params();
    ctx_params.nonce = Some(Digest::from_bytes(nonce_bytes));
    let mut ctx = ServiceContext::new(ctx_params);

    let args = "{\"method\":\"test_tx_nonce\"}".as_bytes().to_vec();
    let payload = ExecPayload::new(address, args);

    let ret = service.exec(&mut ctx, payload).expect("test tx nonce");

    assert_eq!(Some(ret), ctx.get_nonce().as_ref().map(|n| n.as_hex()));
}

#[test]
fn should_support_pvm_storage() {
    let mut context = TestContext::fresh();
    let mut service = new_riscv_service();
    let address = deploy_test_code(&mut service, &mut context);

    let carmen = "{\"color\":\"red\"}";
    let args = format!(
        "{{\"key\":\"carmen\",\"method\":\"test_storage\",\"val\":\"{}\"}}",
        escape(carmen),
    )
    .into_bytes();
    let payload = ExecPayload::new(address, args);

    let mut ctx = context.make();
    let ret = service.exec(&mut ctx, payload).expect("load storage");

    assert_eq!(ret, carmen.as_bytes().to_vec());
}

#[test]
fn should_support_pvm_contract_call() {
    let mut context = TestContext::fresh();
    let mut service = new_riscv_service();
    let address = deploy_test_code(&mut service, &mut context);

    // Deploy another test code
    let tc_address = deploy_test_code(&mut service, &mut context);

    let args = format!(
        "{{\"address\":\"{}\",\"call_args\":\"{}\",\"method\":\"test_contract_call\"}}",
        hex_string(tc_address.as_hex()),
        escape("{\"method\":\"_ret_self\"}"),
    )
    .into_bytes();

    let payload = ExecPayload::new(address, args);

    let mut ctx = context.make();
    let ret = service.exec(&mut ctx, payload).expect("exec contract call");

    assert_eq!(ret, b"self".to_vec());
}

#[test]
fn should_support_pvm_service_call() {
    let mut context = TestContext::fresh();
    let mut service = new_riscv_service();
    let address = deploy_test_code(&mut service, &mut context);

    // Deploy another test code
    let tc_address = deploy_test_code(&mut service, &mut context);

    let call_payload = format!(
        "{{\"address\":\"{}\",\"args\":\"{}\"}}",
        hex_string(tc_address.as_hex()),
        escape("{\"method\":\"_ret_self\"}"),
    );

    let args = format!(
        "{{\"call_method\":\"exec\",\"call_payload\":\"{}\",\"call_service\":\"riscv\",\"method\":\"test_service_call\"}}",
        escape(&call_payload),
    )
    .into_bytes();

    let payload = ExecPayload::new(address, args);

    let mut ctx = context.make();
    let ret = service.exec(&mut ctx, payload).expect("exec service call");

    assert_eq!(ret, b"self".to_vec());
}
