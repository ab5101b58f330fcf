use dapps::address::{parse_address, Address, ADDRESS_BYTES};
use dapps::engine::{Engine, Param};
use dapps::error::Error;
use dapps::registrar::{resolve_proof_response, EnvInfo, Executed, FullClient, FullRegistrar,
    Header, LightClient, LightRegistrar, LightSync, ProofOutcome, Registrar};
use dapps::server_stub;
use dapps::signer::{SignerService, WebProxyTokens};
use dapps::transaction::{synthetic_call_transaction, Action, CALL_GAS};
use dapps::{new, replace_home, Configuration, Dependencies, FetchClient, Remote, SyncStatus};

fn test_engine(registrar: Option<&str>, nonce: u64) -> Engine {
    let mut additional_params = vec![Param {
        name: "networkID".to_string(),
        value: "42".to_string(),
    }];
    if let Some(value) = registrar {
        additional_params.push(Param { name: "registrar".to_string(), value: value.to_string() });
    }
    Engine { additional_params, account_start_nonce: nonce }
}

fn test_signer(tokens: Vec<&str>) -> SignerService {
    SignerService {
        address: Address::zero(),
        web_proxy_tokens: tokens.into_iter().map(|t| t.to_string()).collect(),
    }
}

fn light_registrar(context_available: bool, registrar: Option<&str>) -> LightRegistrar {
    LightRegistrar {
        client: LightClient {
            engine: test_engine(registrar, 7),
            best_header: Header { number: 41, timestamp: 1_500_000_000 },
            env_info: EnvInfo { number: 42, gas_limit: 8_000_000 },
        },
        sync: LightSync { context_available },
    }
}

fn test_deps() -> Dependencies {
    Dependencies {
        sync_status: SyncStatus { major_syncing: false },
        contract_client: Registrar::Light(light_registrar(true, None)),
        remote: Remote {},
        fetch: FetchClient {},
        signer: test_signer(vec!["sesame"]),
    }
}

#[test]
fn default_configuration_keeps_the_template() {
    let c = Configuration::default();
    assert!(c.enabled);
    assert_eq!(c.dapps_path, "$BASE/dapps");
    assert!(c.extra_dapps.is_empty());
}

#[test]
fn replace_home_substitutes_the_placeholder() {
    assert_eq!(replace_home("/data", "$BASE/dapps"), "/data/dapps");
}

#[test]
fn replace_home_leaves_plain_paths_alone() {
    assert_eq!(replace_home("/data", "/srv/dapps"), "/srv/dapps");
    assert_eq!(replace_home("/data", ""), "");
}

#[test]
fn factory_disabled_returns_no_middleware() {
    let configuration = Configuration {
        enabled: false,
        dapps_path: "/srv/dapps".to_string(),
        extra_dapps: vec![],
    };
    let r = new(configuration, test_deps());
    assert!(matches!(r, Ok(None)));
}

#[test]
fn factory_enabled_assembles_the_middleware() {
    let configuration = Configuration {
        enabled: true,
        dapps_path: "/srv/dapps".to_string(),
        extra_dapps: vec!["/srv/more".to_string()],
    };
    let m = new(configuration, test_deps()).unwrap().unwrap();
    assert_eq!(m.dapps_path, "/srv/dapps");
    assert_eq!(m.extra_dapps, vec!["/srv/more".to_string()]);
    assert_eq!(m.ui_address, Address::zero());
    assert!(!m.sync_status.is_major_syncing());
    assert!(m.web_proxy_tokens.is_valid(&"sesame".to_string()));
    assert!(!m.web_proxy_tokens.is_valid(&"other".to_string()));
    assert_eq!(m.contract_client.registrar_address(), Err(Error::RegistrarNotConfigured));
}

#[test]
fn missing_registrar_fails_for_both_implementations() {
    let full = FullRegistrar { client: FullClient { engine: test_engine(None, 0) } };
    assert_eq!(full.registrar_address(), Err(Error::RegistrarNotConfigured));

    let light = light_registrar(true, None);
    assert_eq!(light.registrar_address(), Err(Error::RegistrarNotConfigured));

    let chosen = Registrar::Full(full);
    assert_eq!(chosen.registrar_address(), Err(Error::RegistrarNotConfigured));
    assert_eq!(Err(Error::RegistrarNotConfigured), Registrar::Light(light).registrar_address());
}

#[test]
fn wrong_length_registrar_value_is_an_invalid_address() {
    let full = FullRegistrar { client: FullClient { engine: test_engine(Some("1234"), 0) } };
    match full.registrar_address() {
        Err(Error::InvalidAddress(diagnostic)) => assert!(!diagnostic.is_empty()),
        other => panic!("expected InvalidAddress, got {:?}", other),
    }
}

#[test]
fn non_hex_registrar_value_is_an_invalid_address() {
    let light = light_registrar(true, Some("g000000000000000000000000000000000000000"));
    match light.registrar_address() {
        Err(Error::InvalidAddress(diagnostic)) => assert!(!diagnostic.is_empty()),
        other => panic!("expected InvalidAddress, got {:?}", other),
    }
}

#[test]
fn well_formed_registrar_value_parses() {
    let full = FullRegistrar {
        client: FullClient {
            engine: test_engine(Some("00000000000000000000000000000000000000Ff"), 0),
        },
    };
    let a = full.registrar_address().unwrap();
    let mut expected = vec![0u8; ADDRESS_BYTES];
    expected[19] = 0xff;
    assert_eq!(a.bytes, expected);
}

#[test]
fn parse_address_reads_hex_pairs_in_either_case() {
    let a = parse_address("DeadBeef00000000000000000000000000000001").unwrap();
    assert_eq!(a.bytes[0], 0xde);
    assert_eq!(a.bytes[1], 0xad);
    assert_eq!(a.bytes[2], 0xbe);
    assert_eq!(a.bytes[3], 0xef);
    assert_eq!(a.bytes[19], 0x01);
    assert!(parse_address("").is_err());
    assert!(parse_address("00").is_err());
    assert!(parse_address("zzzzzzzzzzzzzzzzzzzzzzzzzzzzzzzzzzzzzzzz").is_err());
}

#[test]
fn light_call_without_peer_context_is_network_disabled() {
    let light = light_registrar(false, None);
    let r = light.prepare_call(Address::zero(), vec![1, 2, 3]);
    assert_eq!(r, Err(Error::NetworkDisabled));
    assert_eq!(
        Error::NetworkDisabled.message(),
        "cannot query registry: network disabled"
    );
}

#[test]
fn light_call_builds_the_synthetic_transaction() {
    let light = light_registrar(true, Some("0000000000000000000000000000000000000001"));
    let target = parse_address("00000000000000000000000000000000000000aa").unwrap();
    let req = light.prepare_call(target, vec![0xca, 0xfe]).unwrap();

    assert_eq!(req.tx.tx.nonce, 7);
    assert_eq!(req.tx.tx.gas, CALL_GAS);
    assert_eq!(req.tx.tx.gas, 50_000_000);
    assert_eq!(req.tx.tx.gas_price, 0);
    assert_eq!(req.tx.tx.value, 0);
    assert_eq!(req.tx.tx.data, vec![0xca, 0xfe]);
    match &req.tx.tx.action {
        Action::Call(a) => assert_eq!(a.bytes[19], 0xaa),
        Action::Create => panic!("synthetic call must not create a contract"),
    }
    assert_eq!(req.tx.sender, Address::zero());
    assert_eq!(req.header, Header { number: 41, timestamp: 1_500_000_000 });
    assert_eq!(req.env_info, EnvInfo { number: 42, gas_limit: 8_000_000 });
    assert_eq!(req.engine, test_engine(Some("0000000000000000000000000000000000000001"), 7));
}

#[test]
fn synthetic_transaction_is_deterministic() {
    let engine = test_engine(Some("0000000000000000000000000000000000000001"), 9);
    let target = || parse_address("00000000000000000000000000000000000000aa").unwrap();
    let t1 = synthetic_call_transaction(&engine, target(), vec![1, 2, 3]);
    let t2 = synthetic_call_transaction(&engine, target(), vec![1, 2, 3]);
    assert_eq!(t1, t2);
}

#[test]
fn resolved_execution_output_is_returned_exactly() {
    let outcome = ProofOutcome::Complete(Ok(Executed { output: vec![9, 8, 7] }));
    assert_eq!(resolve_proof_response(outcome), Ok(vec![9, 8, 7]));
}

#[test]
fn resolved_execution_failure_carries_the_detail() {
    let outcome = ProofOutcome::Complete(Err("out of gas".to_string()));
    let e = resolve_proof_response(outcome).unwrap_err();
    assert_eq!(e, Error::ExecutionFailed("out of gas".to_string()));
    assert_eq!(e.message(), "Failed to execute transaction: out of gas");
}

#[test]
fn dropped_request_resolves_to_request_dropped() {
    let r = resolve_proof_response(ProofOutcome::Dropped);
    assert_eq!(r, Err(Error::RequestDropped));
    assert_eq!(
        Error::RequestDropped.message(),
        "On-demand service dropped request unexpectedly."
    );
}

#[test]
fn full_call_surfaces_the_client_outcome_verbatim() {
    let full = FullRegistrar { client: FullClient { engine: test_engine(None, 0) } };
    let a = Address::zero();
    assert_eq!(full.call(&a, &vec![1], Ok(vec![4, 5])), Ok(vec![4, 5]));
    assert_eq!(full.call(&a, &vec![1], Err("revert".to_string())), Err("revert".to_string()));
}

#[test]
fn disabled_variant_always_fails_with_the_fixed_message() {
    let configuration = Configuration::default();
    let r = server_stub::dapps_middleware(
        test_deps(),
        configuration.dapps_path,
        configuration.extra_dapps,
    );
    let e = r.unwrap_err();
    assert_eq!(e, Error::HostingNotCompiled);
    assert_eq!(
        e.message(),
        "Your Parity version has been compiled without WebApps support."
    );
}

#[test]
fn error_messages_are_the_documented_literals() {
    assert_eq!(Error::RegistrarNotConfigured.message(), "Registrar not defined.");
    assert_eq!(
        Error::InvalidAddress("bad".to_string()).message(),
        "Invalid registrar address: bad"
    );
}

#[test]
fn signer_checks_token_membership() {
    let signer = test_signer(vec!["alpha", "beta"]);
    assert!(signer.is_valid_web_proxy_access_token(&"alpha".to_string()));
    assert!(signer.is_valid_web_proxy_access_token(&"beta".to_string()));
    assert!(!signer.is_valid_web_proxy_access_token(&"gamma".to_string()));
    assert!(!test_signer(vec![]).is_valid_web_proxy_access_token(&"alpha".to_string()));

    let predicate = WebProxyTokens { signer };
    assert!(predicate.is_valid(&"alpha".to_string()));
    assert!(!predicate.is_valid(&"gamma".to_string()));
}

#[test]
fn additional_param_lookup_takes_the_first_match() {
    let engine = Engine {
        additional_params: vec![
            Param { name: "registrar".to_string(), value: "first".to_string() },
            Param { name: "registrar".to_string(), value: "second".to_string() },
        ],
        account_start_nonce: 0,
    };
    assert_eq!(engine.additional_param(&"registrar".to_string()), Some("first".to_string()));
    assert_eq!(engine.additional_param(&"absent".to_string()), None);
}

#[test]
fn zero_address_is_twenty_zero_bytes() {
    let z = Address::zero();
    assert_eq!(z.bytes, vec![0u8; 20]);
    assert_eq!(z.bytes.len(), ADDRESS_BYTES);
}
