use std::cell::RefCell;

use omnisette::config::{AnisetteConfiguration, DEFAULT_ANISETTE_URL, DEFAULT_ANISETTE_URL_V3};
use omnisette::error::AnisetteError;
use omnisette::provider::{
    backend_order, select_provider, AnisetteHeaders, AnisetteHeadersProviderRes, AnisetteHeadersProviderType,
    BackendKind,
};

#[test]
fn no_backend_gives_unsupported_device() {
    let r = select_provider(&vec![], |_k: BackendKind| -> Result<u8, AnisetteError> { Ok(1) });
    assert!(matches!(r, Err(AnisetteError::UnsupportedDevice)));
}

#[test]
fn all_backends_failing_tries_each_once() {
    let tried = RefCell::new(Vec::new());
    let cfg = AnisetteConfiguration::new();
    let r = AnisetteHeaders::get_anisette_headers_provider(&cfg, |k: BackendKind, _c: &AnisetteConfiguration| -> Result<u8, AnisetteError> {
        tried.borrow_mut().push(k);
        Err(AnisetteError::UnsupportedDevice)
    });
    assert!(matches!(r, Err(AnisetteError::UnsupportedDevice)));
    assert_eq!(*tried.borrow(), backend_order());
}

#[test]
fn last_error_is_surfaced() {
    let r = select_provider(&vec![BackendKind::ClearAdi, BackendKind::Remote], |k: BackendKind| -> Result<u8, AnisetteError> {
        match k {
            BackendKind::Remote => Err(AnisetteError::Misc),
            _ => Err(AnisetteError::MissingLibraries),
        }
    });
    assert!(matches!(r, Err(AnisetteError::Misc)));
}

#[test]
fn local_backend_is_preferred() {
    let cfg = AnisetteConfiguration::new();
    let r = AnisetteHeaders::get_anisette_headers_provider(&cfg, |k: BackendKind, _c: &AnisetteConfiguration| -> Result<BackendKind, AnisetteError> { Ok(k) }).unwrap();
    assert_eq!(r.provider, BackendKind::StoreServicesCore);
    assert_eq!(r.provider_type, AnisetteHeadersProviderType::Local);
}

#[test]
fn falls_back_to_first_remote_that_constructs() {
    let cfg = AnisetteConfiguration::new().set_configuration_path("/tmp/state".to_string());
    let r = AnisetteHeaders::get_anisette_headers_provider(&cfg, |k: BackendKind, c: &AnisetteConfiguration| -> Result<String, AnisetteError> {
        match k {
            BackendKind::StoreServicesCore => Err(AnisetteError::MissingLibraries),
            _ => Ok(c.configuration_path().clone()),
        }
    }).unwrap();
    assert_eq!(r.provider, "/tmp/state");
    assert_eq!(r.provider_type, AnisetteHeadersProviderType::Remote);
}

#[test]
fn ssc_provider_is_local_or_its_error() {
    let cfg = AnisetteConfiguration::new();
    let ok = AnisetteHeaders::get_ssc_anisette_headers_provider(&cfg, |_k: BackendKind, _c: &AnisetteConfiguration| -> Result<u8, AnisetteError> { Ok(3) }).unwrap();
    assert_eq!(ok.provider_type, AnisetteHeadersProviderType::Local);
    let err = AnisetteHeaders::get_ssc_anisette_headers_provider(&cfg, |_k: BackendKind, _c: &AnisetteConfiguration| -> Result<u8, AnisetteError> { Err(AnisetteError::InvalidLibraryFormat) });
    assert!(matches!(err, Err(AnisetteError::InvalidLibraryFormat)));
}

#[test]
fn provider_res_constructors_tag_origin() {
    assert_eq!(AnisetteHeadersProviderRes::local(1u8).provider_type, AnisetteHeadersProviderType::Local);
    assert_eq!(AnisetteHeadersProviderRes::remote(1u8).provider_type, AnisetteHeadersProviderType::Remote);
}

#[test]
fn configuration_defaults_and_setters() {
    let c = AnisetteConfiguration::new();
    assert_eq!(c.anisette_url(), DEFAULT_ANISETTE_URL);
    assert_eq!(c.anisette_url_v3(), DEFAULT_ANISETTE_URL_V3);
    assert_eq!(c.configuration_path(), "");
    let c = c.set_anisette_url("https://example.org/".to_string());
    assert_eq!(c.anisette_url(), "https://example.org/");
    let mut info = c.client_info.clone();
    info.client_app_name = "Other".to_string();
    let c = c.set_client_info(info);
    assert_eq!(c.client_info.client_app_name, "Other");
    assert_eq!(c.anisette_url_v3(), DEFAULT_ANISETTE_URL_V3);
}

#[test]
fn default_configuration_matches_new() {
    let c = AnisetteConfiguration::default();
    assert_eq!(c.anisette_url(), DEFAULT_ANISETTE_URL);
    assert_eq!(c.client_info.client_bundle_id, "com.apple.MobileSMS");
}
