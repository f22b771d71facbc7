use omnisette::anisette::{AnisetteData, CpdValue};
use omnisette::config::AnisetteConfiguration;
use omnisette::headers::{project, FieldSource, HeaderMap, HeaderProfile, LoginClientInfo};

fn base(pairs: &[(&str, &str)]) -> HeaderMap {
    let mut h = HeaderMap::new();
    for (k, v) in pairs {
        h.insert(k.to_string(), v.to_string());
    }
    h
}

fn messages_info() -> LoginClientInfo {
    AnisetteConfiguration::new().client_info
}

fn keys(h: &HeaderMap) -> Vec<String> {
    let mut k: Vec<String> = h.entries.iter().map(|e| e.0.clone()).collect();
    k.sort();
    k.dedup();
    k
}

#[test]
fn service_profile_passes_md_and_sets_app_name() {
    let info = messages_info();
    assert_eq!(info.ak_context_type, "imessage");
    assert_eq!(info.client_app_name, "Messages");
    assert_eq!(info.client_bundle_id, "com.apple.MobileSMS");
    let data = AnisetteData::new(base(&[("X-Apple-I-MD", "AAAA"), ("Irrelevant-Header", "x")]), info);
    let h = data.get_gsservice_headers();
    assert_eq!(h.get("X-Apple-I-MD").map(|s| s.as_str()), Some("AAAA"));
    assert_eq!(h.get("X-Apple-Client-App-Name").map(|s| s.as_str()), Some("Messages"));
    assert!(!h.contains_key("Irrelevant-Header"));
    assert_eq!(h.get("X-Apple-AK-Context-Type").map(|s| s.as_str()), Some("imessage"));
    assert_eq!(h.get("X-Apple-I-Client-Bundle-Id").map(|s| s.as_str()), Some("com.apple.MobileSMS"));
    assert_eq!(h.get("Accept-Language").map(|s| s.as_str()), Some("en-US,en;q=0.9"));
    assert_eq!(h.len(), 7);
}

#[test]
fn service_profile_key_set_is_closed() {
    let data = AnisetteData::new(
        base(&[("X-Apple-I-MD", "a"), ("X-Apple-I-MD-M", "m"), ("X-Apple-I-Client-Time", "t"), ("Other", "o")]),
        messages_info(),
    );
    let h = data.get_gsservice_headers();
    let mut expected: Vec<String> = [
        "X-Apple-I-MD", "X-Apple-I-MD-M", "X-Apple-AK-Context-Type", "X-Apple-Client-App-Name",
        "X-Apple-I-Client-Bundle-Id", "X-MMe-Client-Info", "Accept-Language", "User-Agent",
    ].iter().map(|s| s.to_string()).collect();
    expected.sort();
    assert_eq!(keys(&h), expected);
}

#[test]
fn postdata_profile_keeps_time_headers_and_constants() {
    let data = AnisetteData::new(
        base(&[("X-Apple-I-Client-Time", "2024"), ("X-Apple-I-TimeZone", "UTC"), ("Foo", "bar")]),
        messages_info(),
    );
    let h = data.get_postdata_headers();
    assert_eq!(h.get("X-Apple-I-Client-Time").map(|s| s.as_str()), Some("2024"));
    assert_eq!(h.get("X-Apple-I-TimeZone").map(|s| s.as_str()), Some("UTC"));
    assert_eq!(h.get("X-Apple-I-Service-Type").map(|s| s.as_str()), Some("itunesstore"));
    assert_eq!(h.get("x-apple-i-device-type").map(|s| s.as_str()), Some("1"));
    assert!(!h.contains_key("Foo"));
    assert_eq!(h.len(), 2 + 13);
}

#[test]
fn circle_and_takedown_profiles() {
    let data = AnisetteData::new(base(&[("X-Mme-Device-Id", "dev")]), messages_info());
    let c = data.get_circle_headers();
    assert_eq!(c.len(), 1 + 6);
    assert!(!c.contains_key("X-Apple-AK-DataRecoveryService-Status"));
    let t = data.get_takedown_headers();
    assert_eq!(t.len(), 1 + 7);
    assert_eq!(t.get("X-Apple-AK-DataRecoveryService-Status").map(|s| s.as_str()), Some("1"));
    assert_eq!(t.get("X-Mme-Device-Id").map(|s| s.as_str()), Some("dev"));
}

#[test]
fn extra_profile_appends_hardware_headers_last() {
    let mut info = messages_info();
    info.hardware_headers = base(&[("X-Apple-I-SRL-NO", "C02"), ("X-MMe-Country", "DE")]);
    let data = AnisetteData::new(base(&[("X-Apple-I-MD-LU", "lu")]), info);
    let h = data.get_extra_headers();
    assert_eq!(h.get("X-Apple-I-SRL-NO").map(|s| s.as_str()), Some("C02"));
    assert_eq!(h.get("X-MMe-Country").map(|s| s.as_str()), Some("DE"));
    assert_eq!(h.get("X-Apple-I-MD-LU").map(|s| s.as_str()), Some("lu"));
    assert_eq!(h.get("Sec-Fetch-Mode").map(|s| s.as_str()), Some("cors"));
    assert_eq!(h.get("User-Agent").map(|s| s.as_str()), Some(omnisette::config::DEFAULT_BROWSER_USER_AGENT));
    // the hardware header replaces the profile's own X-MMe-Country entry
    assert_eq!(h.len(), 1 + 23 + 1);
    assert_eq!(keys(&h).len(), h.len());
}

#[test]
fn cpd_data_fields() {
    let mut info = messages_info();
    info.push_token = Some("tok".to_string());
    info.hardware_headers = base(&[("X-Apple-I-ROM", "rom")]);
    let data = AnisetteData::new(base(&[("X-Apple-I-MD", "md"), ("X-Apple-I-TimeZone", "UTC")]), info);
    let d = data.get_cpd_data("req-1");
    let find = |k: &str| d.entries.iter().rev().find(|e| e.0 == k).map(|e| e.1.clone());
    assert_eq!(find("X-Apple-I-MD"), Some(CpdValue::String("md".to_string())));
    assert_eq!(find("X-Apple-I-TimeZone"), None);
    assert_eq!(find("ptkn"), Some(CpdValue::String("tok".to_string())));
    assert_eq!(find("X-Apple-I-Request-UUID"), Some(CpdValue::String("req-1".to_string())));
    assert_eq!(find("svct"), Some(CpdValue::String("imessage".to_string())));
    assert_eq!(find("at"), Some(CpdValue::Integer(0)));
    assert_eq!(find("pbe"), Some(CpdValue::Boolean(false)));
    assert_eq!(find("X-Apple-I-ROM"), Some(CpdValue::String("rom".to_string())));
    assert_eq!(d.entries.len(), 1 + 1 + 9 + 10 + 1);
}

#[test]
fn cpd_data_without_push_token() {
    let data = AnisetteData::new(HeaderMap::new(), messages_info());
    let d = data.get_cpd_data("r");
    assert!(d.entries.iter().all(|e| e.0 != "ptkn"));
    assert_eq!(d.entries.len(), 9 + 10);
}

#[test]
fn empty_base_headers_give_only_profile_fields() {
    let data = AnisetteData::new(HeaderMap::new(), messages_info());
    assert_eq!(data.get_gsservice_headers().len(), 6);
    assert_eq!(data.get_extra_headers().len(), 23);
}

#[test]
fn later_entry_wins_on_lookup() {
    let h = base(&[("A", "1"), ("B", "2"), ("A", "3")]);
    assert_eq!(h.get("A").map(|s| s.as_str()), Some("3"));
    assert_eq!(h.get("C"), None);
}

#[test]
fn custom_profile_projection() {
    let profile = HeaderProfile {
        allowed: vec!["K"],
        fields: vec![("Req", FieldSource::RequestId), ("Const", FieldSource::Text("v"))],
        hardware: false,
    };
    let h = project(&base(&[("K", "k"), ("L", "l")]), &profile, &messages_info(), "id");
    assert_eq!(h.get("K").map(|s| s.as_str()), Some("k"));
    assert_eq!(h.get("Req").map(|s| s.as_str()), Some("id"));
    assert_eq!(h.get("Const").map(|s| s.as_str()), Some("v"));
    assert!(!h.contains_key("L"));
}

#[test]
fn upsert_and_normalized_keep_last_value_once() {
    let mut h = base(&[("A", "1"), ("B", "2"), ("A", "3")]);
    let n = h.normalized();
    assert_eq!(n.entries, vec![("B".to_string(), "2".to_string()), ("A".to_string(), "3".to_string())]);
    h.upsert("B".to_string(), "9".to_string());
    assert_eq!(h.entries, vec![
        ("A".to_string(), "1".to_string()),
        ("A".to_string(), "3".to_string()),
        ("B".to_string(), "9".to_string()),
    ]);
}

#[test]
fn duplicate_base_headers_appear_once() {
    let data = AnisetteData::new(base(&[("X-Apple-I-MD", "old"), ("X-Apple-I-MD", "new")]), messages_info());
    let h = data.get_gsservice_headers();
    assert_eq!(h.get("X-Apple-I-MD").map(|s| s.as_str()), Some("new"));
    assert_eq!(h.entries.iter().filter(|e| e.0 == "X-Apple-I-MD").count(), 1);
}
