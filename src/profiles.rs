use vstd::prelude::*;
use crate::headers::{FieldSource, HeaderProfile};

verus! {

pub open spec fn gsservice_allowed() -> Seq<&'static str> {
    seq![
        "X-Apple-I-MD-LU",
        "X-Apple-I-MD-RINFO",
        "X-Apple-I-MD-M",
        "X-Apple-I-MD",
        "X-Mme-Device-Id",
    ]
}

pub open spec fn gsservice_fields() -> Seq<(&'static str, FieldSource)> {
    seq![
        ("X-Apple-AK-Context-Type", FieldSource::AkContextType),
        ("X-Apple-Client-App-Name", FieldSource::ClientAppName),
        ("X-Apple-I-Client-Bundle-Id", FieldSource::ClientBundleId),
        ("X-MMe-Client-Info", FieldSource::MmeClientInfoAkd),
        ("Accept-Language", FieldSource::Text("en-US,en;q=0.9")),
        ("User-Agent", FieldSource::AkdUserAgent),
    ]
}

/// Headers for the GrandSlam service endpoint.
pub fn gsservice_profile() -> (p: HeaderProfile)
    ensures
        p.allowed@ == gsservice_allowed(),
        p.fields@ == gsservice_fields(),
        p.hardware == false,
{
    let allowed: Vec<&'static str> = vec![
        "X-Apple-I-MD-LU",
        "X-Apple-I-MD-RINFO",
        "X-Apple-I-MD-M",
        "X-Apple-I-MD",
        "X-Mme-Device-Id",
    ];
    let fields: Vec<(&'static str, FieldSource)> = vec![
        ("X-Apple-AK-Context-Type", FieldSource::AkContextType),
        ("X-Apple-Client-App-Name", FieldSource::ClientAppName),
        ("X-Apple-I-Client-Bundle-Id", FieldSource::ClientBundleId),
        ("X-MMe-Client-Info", FieldSource::MmeClientInfoAkd),
        ("Accept-Language", FieldSource::Text("en-US,en;q=0.9")),
        ("User-Agent", FieldSource::AkdUserAgent),
    ];
    assert(allowed@ =~= gsservice_allowed());
    assert(fields@ =~= gsservice_fields());
    HeaderProfile { allowed, fields, hardware: false }
}

pub open spec fn postdata_allowed() -> Seq<&'static str> {
    seq![
        "X-Apple-I-MD-LU",
        "X-Apple-I-MD-RINFO",
        "X-Apple-I-MD-M",
        "X-Apple-I-MD",
        "X-Mme-Device-Id",
        "X-Apple-I-Client-Time",
        "X-Apple-I-TimeZone",
    ]
}

pub open spec fn postdata_fields() -> Seq<(&'static str, FieldSource)> {
    seq![
        ("X-Apple-I-Device-Configuration-Mode", FieldSource::Text("0")),
        ("X-Apple-I-CDP-Status", FieldSource::Text("true")),
        ("X-Apple-I-OT-Status", FieldSource::Text("true")),
        ("User-Agent", FieldSource::AkdUserAgent),
        ("X-Apple-Requested-Partition", FieldSource::Text("0")),
        ("X-MMe-Client-Info", FieldSource::MmeClientInfoAkd),
        ("X-Apple-I-CK-Presence", FieldSource::Text("true")),
        ("X-Apple-I-DeviceUserMode", FieldSource::Text("0")),
        ("X-Apple-AK-DataRecoveryService-Status", FieldSource::Text("1")),
        ("X-Apple-I-TimeZone-Offset", FieldSource::Text("0")),
        ("X-Apple-I-Service-Type", FieldSource::Text("itunesstore")),
        ("x-apple-i-device-type", FieldSource::Text("1")),
        ("Accept-Language", FieldSource::Text("en-US,en;q=0.9")),
    ]
}

/// Headers for request submission.
pub fn postdata_profile() -> (p: HeaderProfile)
    ensures
        p.allowed@ == postdata_allowed(),
        p.fields@ == postdata_fields(),
        p.hardware == false,
{
    let allowed: Vec<&'static str> = vec![
        "X-Apple-I-MD-LU",
        "X-Apple-I-MD-RINFO",
        "X-Apple-I-MD-M",
        "X-Apple-I-MD",
        "X-Mme-Device-Id",
        "X-Apple-I-Client-Time",
        "X-Apple-I-TimeZone",
    ];
    let fields: Vec<(&'static str, FieldSource)> = vec![
        ("X-Apple-I-Device-Configuration-Mode", FieldSource::Text("0")),
        ("X-Apple-I-CDP-Status", FieldSource::Text("true")),
        ("X-Apple-I-OT-Status", FieldSource::Text("true")),
        ("User-Agent", FieldSource::AkdUserAgent),
        ("X-Apple-Requested-Partition", FieldSource::Text("0")),
        ("X-MMe-Client-Info", FieldSource::MmeClientInfoAkd),
        ("X-Apple-I-CK-Presence", FieldSource::Text("true")),
        ("X-Apple-I-DeviceUserMode", FieldSource::Text("0")),
        ("X-Apple-AK-DataRecoveryService-Status", FieldSource::Text("1")),
        ("X-Apple-I-TimeZone-Offset", FieldSource::Text("0")),
        ("X-Apple-I-Service-Type", FieldSource::Text("itunesstore")),
        ("x-apple-i-device-type", FieldSource::Text("1")),
        ("Accept-Language", FieldSource::Text("en-US,en;q=0.9")),
    ];
    assert(allowed@ =~= postdata_allowed());
    assert(fields@ =~= postdata_fields());
    HeaderProfile { allowed, fields, hardware: false }
}

pub open spec fn circle_allowed() -> Seq<&'static str> {
    seq![
        "X-Apple-I-MD-LU",
        "X-Apple-I-MD-RINFO",
        "X-Apple-I-MD-M",
        "X-Apple-I-MD",
        "X-Mme-Device-Id",
        "X-Apple-I-Client-Time",
        "X-Apple-I-TimeZone",
    ]
}

pub open spec fn circle_fields() -> Seq<(&'static str, FieldSource)> {
    seq![
        ("X-Apple-I-Device-Configuration-Mode", FieldSource::Text("0")),
        ("User-Agent", FieldSource::AkdUserAgent),
        ("X-MMe-Client-Info", FieldSource::MmeClientInfoAkd),
        ("X-Apple-I-DeviceUserMode", FieldSource::Text("0")),
        ("X-Apple-I-TimeZone-Offset", FieldSource::Text("0")),
        ("Accept-Language", FieldSource::Text("en-US,en;q=0.9")),
    ]
}

/// Headers for circle-status requests.
pub fn circle_profile() -> (p: HeaderProfile)
    ensures
        p.allowed@ == circle_allowed(),
        p.fields@ == circle_fields(),
        p.hardware == false,
{
    let allowed: Vec<&'static str> = vec![
        "X-Apple-I-MD-LU",
        "X-Apple-I-MD-RINFO",
        "X-Apple-I-MD-M",
        "X-Apple-I-MD",
        "X-Mme-Device-Id",
        "X-Apple-I-Client-Time",
        "X-Apple-I-TimeZone",
    ];
    let fields: Vec<(&'static str, FieldSource)> = vec![
        ("X-Apple-I-Device-Configuration-Mode", FieldSource::Text("0")),
        ("User-Agent", FieldSource::AkdUserAgent),
        ("X-MMe-Client-Info", FieldSource::MmeClientInfoAkd),
        ("X-Apple-I-DeviceUserMode", FieldSource::Text("0")),
        ("X-Apple-I-TimeZone-Offset", FieldSource::Text("0")),
        ("Accept-Language", FieldSource::Text("en-US,en;q=0.9")),
    ];
    assert(allowed@ =~= circle_allowed());
    assert(fields@ =~= circle_fields());
    HeaderProfile { allowed, fields, hardware: false }
}

pub open spec fn takedown_allowed() -> Seq<&'static str> {
    seq![
        "X-Apple-I-MD-LU",
        "X-Apple-I-MD-RINFO",
        "X-Apple-I-MD-M",
        "X-Apple-I-MD",
        "X-Mme-Device-Id",
        "X-Apple-I-Client-Time",
        "X-Apple-I-TimeZone",
        "X-Mme-Device-Id",
    ]
}

pub open spec fn takedown_fields() -> Seq<(&'static str, FieldSource)> {
    seq![
        ("X-Apple-I-Device-Configuration-Mode", FieldSource::Text("0")),
        ("User-Agent", FieldSource::AkdUserAgent),
        ("X-MMe-Client-Info", FieldSource::MmeClientInfoAkd),
        ("X-Apple-I-DeviceUserMode", FieldSource::Text("0")),
        ("X-Apple-AK-DataRecoveryService-Status", FieldSource::Text("1")),
        ("X-Apple-I-TimeZone-Offset", FieldSource::Text("0")),
        ("Accept-Language", FieldSource::Text("en-US,en;q=0.9")),
    ]
}

/// Headers for takedown requests.
pub fn takedown_profile() -> (p: HeaderProfile)
    ensures
        p.allowed@ == takedown_allowed(),
        p.fields@ == takedown_fields(),
        p.hardware == false,
{
    let allowed: Vec<&'static str> = vec![
        "X-Apple-I-MD-LU",
        "X-Apple-I-MD-RINFO",
        "X-Apple-I-MD-M",
        "X-Apple-I-MD",
        "X-Mme-Device-Id",
        "X-Apple-I-Client-Time",
        "X-Apple-I-TimeZone",
        "X-Mme-Device-Id",
    ];
    let fields: Vec<(&'static str, FieldSource)> = vec![
        ("X-Apple-I-Device-Configuration-Mode", FieldSource::Text("0")),
        ("User-Agent", FieldSource::AkdUserAgent),
        ("X-MMe-Client-Info", FieldSource::MmeClientInfoAkd),
        ("X-Apple-I-DeviceUserMode", FieldSource::Text("0")),
        ("X-Apple-AK-DataRecoveryService-Status", FieldSource::Text("1")),
        ("X-Apple-I-TimeZone-Offset", FieldSource::Text("0")),
        ("Accept-Language", FieldSource::Text("en-US,en;q=0.9")),
    ];
    assert(allowed@ =~= takedown_allowed());
    assert(fields@ =~= takedown_fields());
    HeaderProfile { allowed, fields, hardware: false }
}

pub open spec fn extra_allowed() -> Seq<&'static str> {
    seq![
        "X-Apple-I-MD-LU",
        "X-Apple-I-MD-RINFO",
        "X-Apple-I-MD-M",
        "X-Apple-I-MD",
        "X-Mme-Device-Id",
    ]
}

pub open spec fn extra_fields() -> Seq<(&'static str, FieldSource)> {
    seq![
        ("X-Apple-Client-App-Name", FieldSource::ClientAppName),
        ("X-Apple-I-Client-Bundle-Id", FieldSource::ClientBundleId),
        ("X-MMe-Client-Info", FieldSource::MmeClientInfo),
        ("X-Apple-I-CDP-Circle-Status", FieldSource::Text("false")),
        ("X-Apple-I-ICSCREC", FieldSource::Text("true")),
        ("User-Agent", FieldSource::BrowserUserAgent),
        ("Sec-Fetch-Site", FieldSource::Text("same-origin")),
        ("X-Apple-Requested-Partition", FieldSource::Text("0")),
        ("X-Apple-I-DeviceUserMode", FieldSource::Text("0")),
        ("X-Apple-I-Locale", FieldSource::Text("en_US")),
        ("X-Apple-Security-Upgrade-Context", FieldSource::Text("com.apple.authkit.generic")),
        ("Accept-Language", FieldSource::Text("en-US,en;q=0.9")),
        ("X-Apple-I-PRK-Gen", FieldSource::Text("true")),
        ("Sec-Fetch-Mode", FieldSource::Text("cors")),
        ("X-Apple-I-TimeZone", FieldSource::Text("UTC")),
        ("X-Apple-I-OT-Status", FieldSource::Text("false")),
        ("X-Apple-I-TimeZone-Offset", FieldSource::Text("0")),
        ("X-MMe-Country", FieldSource::Text("US")),
        ("X-Apple-I-CDP-Status", FieldSource::Text("false")),
        ("X-Apple-I-Device-Configuration-Mode", FieldSource::Text("0")),
        ("Sec-Fetch-Dest", FieldSource::Text("empty")),
        ("X-Apple-AK-Context-Type", FieldSource::AkContextType),
        ("X-Apple-I-CFU-State", FieldSource::Text("PD94bWwgdmVyc2lvbj0iMS4wIiBlbmNvZGluZz0iVVRGLTgiPz4KPCFET0NUWVBFIHBsaXN0IFBVQkxJQyAiLS8vQXBwbGUvL0RURCBQTElTVCAxLjAvL0VOIiAiaHR0cDovL3d3dy5hcHBsZS5jb20vRFREcy9Qcm9wZXJ0eUxpc3QtMS4wLmR0ZCI+CjxwbGlzdCB2ZXJzaW9uPSIxLjAiPgo8YXJyYXkvPgo8L3BsaXN0Pgo=")),
    ]
}

/// General headers for browser-context requests.
pub fn extra_profile() -> (p: HeaderProfile)
    ensures
        p.allowed@ == extra_allowed(),
        p.fields@ == extra_fields(),
        p.hardware == true,
{
    let allowed: Vec<&'static str> = vec![
        "X-Apple-I-MD-LU",
        "X-Apple-I-MD-RINFO",
        "X-Apple-I-MD-M",
        "X-Apple-I-MD",
        "X-Mme-Device-Id",
    ];
    let fields: Vec<(&'static str, FieldSource)> = vec![
        ("X-Apple-Client-App-Name", FieldSource::ClientAppName),
        ("X-Apple-I-Client-Bundle-Id", FieldSource::ClientBundleId),
        ("X-MMe-Client-Info", FieldSource::MmeClientInfo),
        ("X-Apple-I-CDP-Circle-Status", FieldSource::Text("false")),
        ("X-Apple-I-ICSCREC", FieldSource::Text("true")),
        ("User-Agent", FieldSource::BrowserUserAgent),
        ("Sec-Fetch-Site", FieldSource::Text("same-origin")),
        ("X-Apple-Requested-Partition", FieldSource::Text("0")),
        ("X-Apple-I-DeviceUserMode", FieldSource::Text("0")),
        ("X-Apple-I-Locale", FieldSource::Text("en_US")),
        ("X-Apple-Security-Upgrade-Context", FieldSource::Text("com.apple.authkit.generic")),
        ("Accept-Language", FieldSource::Text("en-US,en;q=0.9")),
        ("X-Apple-I-PRK-Gen", FieldSource::Text("true")),
        ("Sec-Fetch-Mode", FieldSource::Text("cors")),
        ("X-Apple-I-TimeZone", FieldSource::Text("UTC")),
        ("X-Apple-I-OT-Status", FieldSource::Text("false")),
        ("X-Apple-I-TimeZone-Offset", FieldSource::Text("0")),
        ("X-MMe-Country", FieldSource::Text("US")),
        ("X-Apple-I-CDP-Status", FieldSource::Text("false")),
        ("X-Apple-I-Device-Configuration-Mode", FieldSource::Text("0")),
        ("Sec-Fetch-Dest", FieldSource::Text("empty")),
        ("X-Apple-AK-Context-Type", FieldSource::AkContextType),
        ("X-Apple-I-CFU-State", FieldSource::Text("PD94bWwgdmVyc2lvbj0iMS4wIiBlbmNvZGluZz0iVVRGLTgiPz4KPCFET0NUWVBFIHBsaXN0IFBVQkxJQyAiLS8vQXBwbGUvL0RURCBQTElTVCAxLjAvL0VOIiAiaHR0cDovL3d3dy5hcHBsZS5jb20vRFREcy9Qcm9wZXJ0eUxpc3QtMS4wLmR0ZCI+CjxwbGlzdCB2ZXJzaW9uPSIxLjAiPgo8YXJyYXkvPgo8L3BsaXN0Pgo=")),
    ];
    assert(allowed@ =~= extra_allowed());
    assert(fields@ =~= extra_fields());
    HeaderProfile { allowed, fields, hardware: true }
}

pub open spec fn cpd_allowed() -> Seq<&'static str> {
    seq![
        "X-Apple-I-Client-Time",
        "X-Apple-I-MD",
        "X-Apple-I-MD-LU",
        "X-Apple-I-MD-M",
        "X-Apple-I-MD-RINFO",
        "X-Mme-Device-Id",
    ]
}

pub open spec fn cpd_fields() -> Seq<(&'static str, FieldSource)> {
    seq![
        ("X-Apple-I-Device-Configuration-Mode", FieldSource::Text("0")),
        ("X-Apple-I-Request-UUID", FieldSource::RequestId),
        ("X-Apple-Requested-Partition", FieldSource::Text("0")),
        ("X-Apple-Security-Upgrade-Context", FieldSource::Text("com.apple.authkit.generic")),
        ("capp", FieldSource::ClientAppName),
        ("cbid", FieldSource::ClientBundleId),
        ("cou", FieldSource::Text("US")),
        ("loc", FieldSource::Text("en_US")),
        ("svct", FieldSource::AkContextType),
    ]
}

/// String fields of the client provisioning data.
pub fn cpd_profile() -> (p: HeaderProfile)
    ensures
        p.allowed@ == cpd_allowed(),
        p.fields@ == cpd_fields(),
        p.hardware == false,
{
    let allowed: Vec<&'static str> = vec![
        "X-Apple-I-Client-Time",
        "X-Apple-I-MD",
        "X-Apple-I-MD-LU",
        "X-Apple-I-MD-M",
        "X-Apple-I-MD-RINFO",
        "X-Mme-Device-Id",
    ];
    let fields: Vec<(&'static str, FieldSource)> = vec![
        ("X-Apple-I-Device-Configuration-Mode", FieldSource::Text("0")),
        ("X-Apple-I-Request-UUID", FieldSource::RequestId),
        ("X-Apple-Requested-Partition", FieldSource::Text("0")),
        ("X-Apple-Security-Upgrade-Context", FieldSource::Text("com.apple.authkit.generic")),
        ("capp", FieldSource::ClientAppName),
        ("cbid", FieldSource::ClientBundleId),
        ("cou", FieldSource::Text("US")),
        ("loc", FieldSource::Text("en_US")),
        ("svct", FieldSource::AkContextType),
    ];
    assert(allowed@ =~= cpd_allowed());
    assert(fields@ =~= cpd_fields());
    HeaderProfile { allowed, fields, hardware: false }
}

} // verus!
