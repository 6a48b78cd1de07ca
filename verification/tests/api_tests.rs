//! The container-facing facade: instantiation, activation and state
//! access.

use std::sync::Arc;

use holochain_core::api::Holochain;
use holochain_core::context::Context;
use holochain_core::dna::Dna;
use holochain_core::error::HolochainError;

fn api_test_context(agent_name: &str) -> Arc<Context> {
    Arc::new(Context::new(agent_name.to_string(), None))
}

#[test]
fn can_instantiate() {
    let mut dna = Dna::new("TestApp".to_string());
    dna.name = "TestApp".to_string();
    let context = api_test_context("bob");
    let result = Holochain::new(dna.clone(), context.clone());

    match result {
        Ok(mut hc) => {
            assert_eq!(hc.state().unwrap().nucleus().dna(), Some(dna));
            assert!(!hc.active());
            assert_eq!(hc.context().agent, "bob".to_string());
            assert!(hc.state().unwrap().nucleus().has_initialized());
        }
        Err(_) => assert!(false),
    };
}

#[test]
fn can_start_and_stop() {
    let dna = Dna::new("TestApp".to_string());
    let context = api_test_context("bob");
    let mut hc = Holochain::new(dna.clone(), context).unwrap();
    assert!(!hc.active());

    // stop when not active returns error
    let result = hc.stop();
    match result {
        Err(HolochainError::InstanceNotActive) => assert!(true),
        Ok(_) => assert!(false),
        Err(_) => assert!(false),
    }

    let result = hc.start();
    match result {
        Ok(_) => assert!(true),
        Err(_) => assert!(false),
    }
    assert!(hc.active());

    // start when active returns error
    let result = hc.start();
    match result {
        Err(HolochainError::InstanceActive) => assert!(true),
        Ok(_) => assert!(false),
        Err(_) => assert!(false),
    }

    let result = hc.stop();
    match result {
        Ok(_) => assert!(true),
        Err(_) => assert!(false),
    }
    assert!(!hc.active());
}

#[test]
fn can_get_state() {
    let dna = Dna::new("TestApp".to_string());
    let context = api_test_context("bob");
    let mut hc = Holochain::new(dna.clone(), context).unwrap();

    let result = hc.state();
    match result {
        Ok(state) => {
            assert_eq!(state.nucleus().dna(), Some(dna));
        }
        Err(_) => assert!(false),
    };
}

#[test]
fn call_requires_active_instance() {
    let dna = Dna::new("TestApp".to_string());
    let context = api_test_context("bob");
    let mut hc = Holochain::new(dna, context).unwrap();

    // calling into an inactive instance is refused
    let result = hc.call("test_zome", "test_cap", "main", "");
    assert!(result.is_err());
    assert_eq!(result.err().unwrap(), HolochainError::InstanceNotActive);

    hc.start().expect("couldn't start");

    // this core carries no application-code executor
    let result = hc.call("test_zome", "test_cap", "main", "");
    assert!(result.is_err());
    assert_eq!(result.err().unwrap(), HolochainError::NotImplemented);
}

#[test]
fn error_messages() {
    let generic = HolochainError::ErrorGeneric("fail".to_string());
    assert_eq!(generic.message(), "fail");
    assert_eq!(generic.clone(), generic);
    assert_ne!(
        HolochainError::InstanceActive.message(),
        HolochainError::InstanceNotActive.message()
    );
}
