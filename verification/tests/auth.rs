use voting::address::Address;
use voting::auth::{AuthorizationGate, Caller};

fn caller(is_signer: bool, is_writable: bool) -> Caller {
    Caller { key: Address { bytes: [1u8; 32] }, is_signer, is_writable }
}

#[test]
fn signer_that_can_pay_is_permitted() {
    assert!(AuthorizationGate::check(&caller(true, true)));
}

#[test]
fn caller_without_signature_is_refused() {
    assert!(!AuthorizationGate::check(&caller(false, true)));
}

#[test]
fn signer_that_cannot_pay_is_refused() {
    assert!(!AuthorizationGate::check(&caller(true, false)));
}

#[test]
fn caller_with_neither_is_refused() {
    assert!(!AuthorizationGate::check(&caller(false, false)));
}
