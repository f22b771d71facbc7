use vstd::prelude::*;
use crate::headers::{HeaderMap, LoginClientInfo};

verus! {

pub const DEFAULT_ANISETTE_URL: &'static str = "https://ani.f1sh.me/";

pub const DEFAULT_ANISETTE_URL_V3: &'static str = "https://ani.sidestore.io";

pub const DEFAULT_MME_CLIENT_INFO: &'static str =
    "<MacBookPro18,3> <macOS;13.2.1;22D68> <com.apple.AuthKit/1 (com.apple.akd/1.0)>";

pub const DEFAULT_AKD_USER_AGENT: &'static str = "akd/1.0 CFNetwork/1494.0.7 Darwin/23.4.0";

pub const DEFAULT_BROWSER_USER_AGENT: &'static str =
    "Mozilla/5.0 (Macintosh; Intel Mac OS X 10_15_7) AppleWebKit/605.1.15 (KHTML, like Gecko)";

/// Process-wide settings: the remote service URLs, the path of persisted backend state,
/// and the client identity.
#[derive(Debug, Clone)]
pub struct AnisetteConfiguration {
    anisette_url: String,
    anisette_url_v3: String,
    configuration_path: String,
    pub client_info: LoginClientInfo,
}

impl AnisetteConfiguration {
    pub closed spec fn spec_anisette_url(&self) -> Seq<char> {
        self.anisette_url@
    }

    pub closed spec fn spec_anisette_url_v3(&self) -> Seq<char> {
        self.anisette_url_v3@
    }

    pub closed spec fn spec_configuration_path(&self) -> Seq<char> {
        self.configuration_path@
    }

    pub closed spec fn spec_client_info(&self) -> LoginClientInfo {
        self.client_info
    }

    /// The default settings: the public services, an empty path, and the identity of the
    /// Messages application on a Mac.
    pub fn new() -> (r: AnisetteConfiguration)
        ensures
            r.spec_anisette_url() == DEFAULT_ANISETTE_URL@,
            r.spec_anisette_url_v3() == DEFAULT_ANISETTE_URL_V3@,
            r.spec_configuration_path() == Seq::<char>::empty(),
            r.spec_client_info().ak_context_type@ == "imessage"@,
            r.spec_client_info().client_app_name@ == "Messages"@,
            r.spec_client_info().client_bundle_id@ == "com.apple.MobileSMS"@,
            r.spec_client_info().mme_client_info_akd@ == DEFAULT_MME_CLIENT_INFO@,
            r.spec_client_info().mme_client_info@ == DEFAULT_MME_CLIENT_INFO@,
            r.spec_client_info().akd_user_agent@ == DEFAULT_AKD_USER_AGENT@,
            r.spec_client_info().browser_user_agent@ == DEFAULT_BROWSER_USER_AGENT@,
            r.spec_client_info().hardware_headers@ == Seq::<(Seq<char>, Seq<char>)>::empty(),
            r.spec_client_info().push_token is None,
    {
        AnisetteConfiguration {
            anisette_url: DEFAULT_ANISETTE_URL.to_owned(),
            anisette_url_v3: DEFAULT_ANISETTE_URL_V3.to_owned(),
            configuration_path: String::new(),
            client_info: LoginClientInfo {
                ak_context_type: "imessage".to_owned(),
                client_app_name: "Messages".to_owned(),
                client_bundle_id: "com.apple.MobileSMS".to_owned(),
                mme_client_info_akd: DEFAULT_MME_CLIENT_INFO.to_owned(),
                mme_client_info: DEFAULT_MME_CLIENT_INFO.to_owned(),
                akd_user_agent: DEFAULT_AKD_USER_AGENT.to_owned(),
                browser_user_agent: DEFAULT_BROWSER_USER_AGENT.to_owned(),
                hardware_headers: HeaderMap::new(),
                push_token: None,
            },
        }
    }

    pub fn anisette_url(&self) -> (r: &String)
        ensures
            r@ == self.spec_anisette_url(),
    {
        &self.anisette_url
    }

    pub fn anisette_url_v3(&self) -> (r: &String)
        ensures
            r@ == self.spec_anisette_url_v3(),
    {
        &self.anisette_url_v3
    }

    pub fn configuration_path(&self) -> (r: &String)
        ensures
            r@ == self.spec_configuration_path(),
    {
        &self.configuration_path
    }

    pub fn set_anisette_url(self, anisette_url: String) -> (r: AnisetteConfiguration)
        ensures
            r.spec_anisette_url() == anisette_url@,
            r.spec_anisette_url_v3() == self.spec_anisette_url_v3(),
            r.spec_configuration_path() == self.spec_configuration_path(),
            r.spec_client_info() == self.spec_client_info(),
    {
        let mut c = self;
        c.anisette_url = anisette_url;
        c
    }

    pub fn set_configuration_path(self, configuration_path: String) -> (r: AnisetteConfiguration)
        ensures
            r.spec_configuration_path() == configuration_path@,
            r.spec_anisette_url() == self.spec_anisette_url(),
            r.spec_anisette_url_v3() == self.spec_anisette_url_v3(),
            r.spec_client_info() == self.spec_client_info(),
    {
        let mut c = self;
        c.configuration_path = configuration_path;
        c
    }

    pub fn set_client_info(self, client_info: LoginClientInfo) -> (r: AnisetteConfiguration)
        ensures
            r.spec_client_info() == client_info,
            r.spec_anisette_url() == self.spec_anisette_url(),
            r.spec_anisette_url_v3() == self.spec_anisette_url_v3(),
            r.spec_configuration_path() == self.spec_configuration_path(),
    {
        let mut c = self;
        c.client_info = client_info;
        c
    }
}

impl Default for AnisetteConfiguration {
    fn default() -> (r: AnisetteConfiguration)
        ensures
            r.spec_anisette_url() == DEFAULT_ANISETTE_URL@,
            r.spec_anisette_url_v3() == DEFAULT_ANISETTE_URL_V3@,
            r.spec_configuration_path() == Seq::<char>::empty(),
            r.spec_client_info().ak_context_type@ == "imessage"@,
            r.spec_client_info().client_app_name@ == "Messages"@,
            r.spec_client_info().client_bundle_id@ == "com.apple.MobileSMS"@,
            r.spec_client_info().mme_client_info_akd@ == DEFAULT_MME_CLIENT_INFO@,
            r.spec_client_info().mme_client_info@ == DEFAULT_MME_CLIENT_INFO@,
            r.spec_client_info().akd_user_agent@ == DEFAULT_AKD_USER_AGENT@,
            r.spec_client_info().browser_user_agent@ == DEFAULT_BROWSER_USER_AGENT@,
            r.spec_client_info().hardware_headers@ == Seq::<(Seq<char>, Seq<char>)>::empty(),
            r.spec_client_info().push_token is None,
    {
        AnisetteConfiguration::new()
    }
}

} // verus!
