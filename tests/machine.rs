use omnisette::machine::{AnisetteFlavor, ProvisionedMachine, ProvisionedMachineSerde};
use omnisette::scripted::TableOtpBackend;

fn sample() -> ProvisionedMachine {
    let mut secret = [0u8; 32];
    for (i, b) in secret.iter_mut().enumerate() {
        *b = i as u8 + 1;
    }
    let mut mid = [0u8; 60];
    for (i, b) in mid.iter_mut().enumerate() {
        *b = 200 - i as u8;
    }
    ProvisionedMachine { client_secret: secret, mid, metadata: vec![9, 8, 7], flavor: AnisetteFlavor::IOS }
}

#[test]
fn storage_round_trip_keeps_fields() {
    let m = sample();
    let s = m.to_serde();
    assert_eq!(s.mid.len(), 60);
    let back = ProvisionedMachine::from_serde(&s, m.flavor).unwrap();
    assert_eq!(back.client_secret, m.client_secret);
    assert_eq!(back.mid, m.mid);
    assert_eq!(back.metadata, m.metadata);
    assert_eq!(back.flavor, AnisetteFlavor::IOS);
}

#[test]
fn storage_form_with_short_mid_is_refused() {
    let s = ProvisionedMachineSerde { client_secret: [1u8; 32], mid: vec![1, 2, 3], metadata: vec![] };
    assert!(ProvisionedMachine::from_serde(&s, AnisetteFlavor::Mac).is_none());
}

fn table() -> TableOtpBackend {
    TableOtpBackend {
        entries: vec![
            (0x0102, vec![1, 2, 3, 4, 5], 111111),
            (0x0103, vec![9, 9], 222222),
            (0x0102, vec![7, 7, 7], 333333),
        ],
    }
}

#[test]
fn otp_is_the_backend_answer_for_the_time_step() {
    let m = sample();
    let mut b = table();
    let blob = m.generate_otp(&mut b, 0x0102);
    assert_eq!(blob, vec![7, 7, 7]);
    assert_eq!(m.generate_otp(&mut b, 0x0102), blob);
    assert_ne!(m.generate_otp(&mut b, 0x0103), blob);
    assert_eq!(m.generate_otp(&mut b, 5), Vec::<u8>::new());
}

#[test]
fn two_factor_code_is_the_backend_answer() {
    let m = sample();
    let mut b = table();
    assert_eq!(m.gen_2fa_code(&mut b, 0x0103), 222222);
    assert_eq!(m.gen_2fa_code(&mut b, 0x0102), 333333);
    assert_eq!(m.gen_2fa_code(&mut b, 0x0102), m.gen_2fa_code(&mut b, 0x0102));
    assert_ne!(m.gen_2fa_code(&mut b, 0x0102), m.gen_2fa_code(&mut b, 0x0103));
    assert_eq!(m.gen_2fa_code(&mut b, 1), 0);
}

#[test]
fn reloaded_machine_gets_the_same_codes() {
    let m = sample();
    let back = ProvisionedMachine::from_serde(&m.to_serde(), m.flavor).unwrap();
    let mut b = table();
    assert_eq!(back.generate_otp(&mut b, 0x0103), m.generate_otp(&mut b, 0x0103));
    assert_eq!(back.gen_2fa_code(&mut b, 0x0103), m.gen_2fa_code(&mut b, 0x0103));
}
