use omnisette::error::{ClearAdiError, ADI_INVALID_ARGUMENT, ADI_PROTOCOL_MISMATCH};
use omnisette::machine::AnisetteFlavor;
use omnisette::scripted::ScriptedBackend;
use omnisette::session::{handshake_inputs_valid, machine_from_parts, ProvisioningSession};

fn scripted(mid_len: usize, reject: Option<i32>) -> ScriptedBackend {
    ScriptedBackend {
        start: Ok((42, vec![3, 2, 1])),
        end: match reject {
            Some(c) => Err(c),
            None => Ok(([5u8; 32], vec![6u8; mid_len], vec![1, 2])),
        },
        starts: 0,
    }
}

fn backend() -> ScriptedBackend {
    scripted(60, None)
}

#[test]
fn start_with_empty_host_identifier_is_invalid() {
    let mut b = backend();
    let r = ProvisioningSession::new(&mut b, &[1, 2], &[], 7, AnisetteFlavor::Mac);
    assert!(matches!(r, Err(ClearAdiError(ADI_INVALID_ARGUMENT))));
    assert_eq!(b.starts, 0);
}

#[test]
fn start_with_empty_seed_is_invalid() {
    let mut b = backend();
    let r = ProvisioningSession::new(&mut b, &[], &[1], 7, AnisetteFlavor::Mac);
    assert_eq!(r.err(), Some(ClearAdiError(ADI_INVALID_ARGUMENT)));
}

#[test]
fn handshake_yields_machine() {
    let mut b = backend();
    let (session, blob) = ProvisioningSession::new(&mut b, &[1, 2, 3], &[9], 7, AnisetteFlavor::IOS).unwrap();
    assert_eq!(blob, vec![3, 2, 1]);
    assert_eq!(b.starts, 1);
    assert_eq!(session.flavor(), AnisetteFlavor::IOS);
    let m = session.finish(&mut b, &[1], &[2]).unwrap();
    assert_eq!(m.client_secret, [5u8; 32]);
    assert_eq!(m.mid, [6u8; 60]);
    assert_eq!(m.metadata, vec![1, 2]);
    assert_eq!(m.flavor, AnisetteFlavor::IOS);
}

#[test]
fn finish_with_empty_token_is_invalid() {
    let mut b = backend();
    let (session, _) = ProvisioningSession::new(&mut b, &[1], &[1], 0, AnisetteFlavor::Mac).unwrap();
    assert_eq!(session.finish(&mut b, &[], &[1]).err(), Some(ClearAdiError(ADI_INVALID_ARGUMENT)));
}

#[test]
fn finish_reports_rejection_and_bad_machine_id() {
    let mut b = scripted(60, Some(-45061));
    let (session, _) = ProvisioningSession::new(&mut b, &[1], &[1], 0, AnisetteFlavor::Mac).unwrap();
    assert_eq!(session.finish(&mut b, &[1], &[1]).err(), Some(ClearAdiError(-45061)));
    let mut b = scripted(59, None);
    let (session, _) = ProvisioningSession::new(&mut b, &[1], &[1], 0, AnisetteFlavor::Mac).unwrap();
    assert_eq!(session.finish(&mut b, &[1], &[1]).err(), Some(ClearAdiError(ADI_PROTOCOL_MISMATCH)));
}

#[test]
fn machine_from_parts_checks_length() {
    assert!(machine_from_parts([0u8; 32], vec![0u8; 61], vec![], AnisetteFlavor::Mac).is_err());
    let m = machine_from_parts([3u8; 32], vec![4u8; 60], vec![8], AnisetteFlavor::Mac).unwrap();
    assert_eq!(m.mid, [4u8; 60]);
    assert_eq!(m.metadata, vec![8]);
}

#[test]
fn accept_start_and_end_follow_backend_answers() {
    let (s, blob) = ProvisioningSession::accept_start(Ok((9, vec![1, 2])), AnisetteFlavor::Mac).unwrap();
    assert_eq!(blob, vec![1, 2]);
    assert_eq!(s.flavor(), AnisetteFlavor::Mac);
    assert_eq!(s.accept_end(Err(-7)).err(), Some(ClearAdiError(-7)));
    assert_eq!(ProvisioningSession::accept_start(Err(-3), AnisetteFlavor::IOS).err(), Some(ClearAdiError(-3)));
    let (s, _) = ProvisioningSession::accept_start(Ok((1, vec![])), AnisetteFlavor::IOS).unwrap();
    let m = s.accept_end(Ok(([2u8; 32], vec![3u8; 60], vec![4]))).unwrap();
    assert_eq!(m.flavor, AnisetteFlavor::IOS);
    assert_eq!(m.client_secret, [2u8; 32]);
}

#[test]
fn handshake_input_check() {
    assert!(handshake_inputs_valid(&[1], &[2]));
    assert!(!handshake_inputs_valid(&[], &[2]));
    assert!(!handshake_inputs_valid(&[1], &[]));
}

#[test]
fn error_code_as_decimal_text() {
    assert_eq!(ClearAdiError(-45061).to_decimal_string(), "-45061");
    assert_eq!(ClearAdiError(0).to_decimal_string(), "0");
    assert_eq!(ClearAdiError(1234).to_decimal_string(), "1234");
    assert_eq!(ClearAdiError(i32::MIN).to_decimal_string(), i32::MIN.to_string());
    assert_eq!(ClearAdiError(ADI_INVALID_ARGUMENT).to_decimal_string(), ADI_INVALID_ARGUMENT.to_string());
}

#[test]
fn backend_rejection_at_start_is_passed_on() {
    let mut b = ScriptedBackend { start: Err(-45054), end: Err(0), starts: 0 };
    let r = ProvisioningSession::new(&mut b, &[1], &[1], 0, AnisetteFlavor::Mac);
    assert_eq!(r.err(), Some(ClearAdiError(-45054)));
    assert_eq!(b.starts, 1);
}
