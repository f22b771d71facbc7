use vstd::prelude::*;
use crate::config::AnisetteConfiguration;
use crate::error::AnisetteError;

verus! {

/// The backends, in the order in which they are tried.
#[derive(Debug, Clone, Copy, PartialEq, Eq, Structural)]
pub enum BackendKind {
    /// The native device-identity service of this machine.
    StoreServicesCore,
    /// The protocol reimplementation talking to a lightweight remote authority.
    ClearAdi,
    /// The socket-based remote service.
    RemoteV3,
    /// The legacy HTTP remote service.
    Remote,
}

/// Whether a provider runs on this machine or relies on a remote party.
#[derive(Debug, Clone, Copy, PartialEq, Eq, Structural)]
pub enum AnisetteHeadersProviderType {
    Local,
    Remote,
}

pub open spec fn origin_of(k: BackendKind) -> AnisetteHeadersProviderType {
    match k {
        BackendKind::StoreServicesCore => AnisetteHeadersProviderType::Local,
        _ => AnisetteHeadersProviderType::Remote,
    }
}

/// A selected provider, tagged with its origin.
pub struct AnisetteHeadersProviderRes<P> {
    pub provider: P,
    pub provider_type: AnisetteHeadersProviderType,
}

impl<P> AnisetteHeadersProviderRes<P> {
    pub fn local(provider: P) -> (r: AnisetteHeadersProviderRes<P>)
        ensures
            r.provider == provider,
            r.provider_type == AnisetteHeadersProviderType::Local,
    {
        AnisetteHeadersProviderRes { provider, provider_type: AnisetteHeadersProviderType::Local }
    }

    pub fn remote(provider: P) -> (r: AnisetteHeadersProviderRes<P>)
        ensures
            r.provider == provider,
            r.provider_type == AnisetteHeadersProviderType::Remote,
    {
        AnisetteHeadersProviderRes { provider, provider_type: AnisetteHeadersProviderType::Remote }
    }
}

pub open spec fn default_order() -> Seq<BackendKind> {
    seq![
        BackendKind::StoreServicesCore,
        BackendKind::ClearAdi,
        BackendKind::RemoteV3,
        BackendKind::Remote,
    ]
}

/// The backends in priority order: local first, then the remote ones.
pub fn backend_order() -> (r: Vec<BackendKind>)
    ensures
        r@ == default_order(),
{
    let r = vec![
        BackendKind::StoreServicesCore,
        BackendKind::ClearAdi,
        BackendKind::RemoteV3,
        BackendKind::Remote,
    ];
    assert(r@ =~= default_order());
    r
}

/// A construction attempt of backend `k` can come back with an error.
pub open spec fn may_fail<P, F: Fn(BackendKind) -> Result<P, AnisetteError>>(
    construct: F,
    k: BackendKind,
) -> bool {
    exists|e: AnisetteError| #[trigger] construct.ensures((k,), Err::<P, AnisetteError>(e))
}

/// Tries the backends of `order` one after the other and returns the first that constructs,
/// tagged with its origin, and its position in `order`. When every attempt fails, the error
/// of the last one is returned; when `order` is empty, the unsupported-device error.
pub fn select_provider<P, F: Fn(BackendKind) -> Result<P, AnisetteError>>(
    order: &Vec<BackendKind>,
    construct: F,
) -> (r: Result<(AnisetteHeadersProviderRes<P>, usize), AnisetteError>)
    requires
        forall|k: BackendKind| #[trigger] construct.requires((k,)),
    ensures
        r matches Ok((res, i)) ==> {
            &&& i < order@.len()
            &&& construct.ensures((order@[i as int],), Ok::<P, AnisetteError>(res.provider))
            &&& res.provider_type == origin_of(order@[i as int])
            &&& forall|j: int| 0 <= j < i ==> may_fail(construct, #[trigger] order@[j])
        },
        order@.len() == 0 ==> r == Err::<(AnisetteHeadersProviderRes<P>, usize), _>(
            AnisetteError::UnsupportedDevice,
        ),
        r matches Err(e) ==> forall|j: int|
            0 <= j < order@.len() ==> may_fail(construct, #[trigger] order@[j]),
        r matches Err(e) ==> (order@.len() > 0 ==> construct.ensures(
            (order@.last(),),
            Err::<P, AnisetteError>(e),
        )),
        (exists|j: int|
            0 <= j < order@.len() && !may_fail(construct, #[trigger] order@[j])) ==> r is Ok,
{
    let mut last: AnisetteError = AnisetteError::UnsupportedDevice;
    let mut i: usize = 0;
    while i < order.len()
        invariant
            i <= order@.len(),
            forall|k: BackendKind| #[trigger] construct.requires((k,)),
            forall|j: int| 0 <= j < i ==> may_fail(construct, #[trigger] order@[j]),
            i == 0 ==> last == AnisetteError::UnsupportedDevice,
            i > 0 ==> construct.ensures((order@[i - 1],), Err::<P, AnisetteError>(last)),
        decreases order@.len() - i,
    {
        let k = order[i];
        match construct(k) {
            Ok(p) => {
                let res = match k {
                    BackendKind::StoreServicesCore => AnisetteHeadersProviderRes::local(p),
                    _ => AnisetteHeadersProviderRes::remote(p),
                };
                return Ok((res, i));
            },
            Err(e) => {
                last = e;
            },
        }
        i = i + 1;
    }
    Err(last)
}

/// Entry point of provider selection.
pub struct AnisetteHeaders;

/// A construction attempt of backend `k` for configuration `c` can come back with an error.
pub open spec fn may_fail_for<P, F: Fn(BackendKind, &AnisetteConfiguration) -> Result<P, AnisetteError>>(
    construct: F,
    c: &AnisetteConfiguration,
    k: BackendKind,
) -> bool {
    exists|e: AnisetteError| #[trigger] construct.ensures((k, c), Err::<P, AnisetteError>(e))
}

impl AnisetteHeaders {
    /// Selects a provider for `configuration`, trying the backends of `backend_order`.
    /// `construct` builds a backend of a kind from the configuration.
    pub fn get_anisette_headers_provider<P, F: Fn(BackendKind, &AnisetteConfiguration) -> Result<P, AnisetteError>>(
        configuration: &AnisetteConfiguration,
        construct: F,
    ) -> (r: Result<AnisetteHeadersProviderRes<P>, AnisetteError>)
        requires
            forall|k: BackendKind| #[trigger] construct.requires((k, configuration)),
        ensures
            r matches Ok(res) ==> exists|i: int|
                0 <= i < default_order().len() && construct.ensures(
                    (default_order()[i], configuration),
                    Ok::<P, AnisetteError>(res.provider),
                ) && res.provider_type == origin_of(default_order()[i]) && forall|j: int|
                    0 <= j < i ==> may_fail_for(construct, configuration, #[trigger] default_order()[j]),
            r matches Err(e) ==> forall|j: int|
                0 <= j < default_order().len() ==> may_fail_for(construct, configuration, #[trigger] default_order()[j]),
            r matches Err(e) ==> construct.ensures(
                (BackendKind::Remote, configuration),
                Err::<P, AnisetteError>(e),
            ),
            (exists|j: int|
                0 <= j < default_order().len() && !may_fail_for(construct, configuration, #[trigger] default_order()[j]))
                ==> r is Ok,
    {
        let order = backend_order();
        let cref = &construct;
        let bound = |k: BackendKind| -> (r: Result<P, AnisetteError>)
            requires
                cref.requires((k, configuration)),
            ensures
                cref.ensures((k, configuration), r),
            { cref(k, configuration) };
        match select_provider(&order, bound) {
            Ok((res, i)) => {
                assert forall|j: int| 0 <= j < i implies may_fail_for(
                    construct,
                    configuration,
                    #[trigger] default_order()[j],
                ) by {
                    assert(may_fail(bound, order@[j]));
                }
                Ok(res)
            },
            Err(e) => {
                assert forall|j: int| 0 <= j < default_order().len() implies may_fail_for(
                    construct,
                    configuration,
                    #[trigger] default_order()[j],
                ) by {
                    assert(may_fail(bound, order@[j]));
                }
                Err(e)
            },
        }
    }

    /// The local provider alone: built from the native service, or its error.
    pub fn get_ssc_anisette_headers_provider<P, F: Fn(BackendKind, &AnisetteConfiguration) -> Result<P, AnisetteError>>(
        configuration: &AnisetteConfiguration,
        construct: F,
    ) -> (r: Result<AnisetteHeadersProviderRes<P>, AnisetteError>)
        requires
            construct.requires((BackendKind::StoreServicesCore, configuration)),
        ensures
            r matches Ok(res) ==> construct.ensures(
                (BackendKind::StoreServicesCore, configuration),
                Ok::<P, AnisetteError>(res.provider),
            ) && res.provider_type == AnisetteHeadersProviderType::Local,
            r matches Err(e) ==> construct.ensures(
                (BackendKind::StoreServicesCore, configuration),
                Err::<P, AnisetteError>(e),
            ),
    {
        match construct(BackendKind::StoreServicesCore, configuration) {
            Ok(p) => Ok(AnisetteHeadersProviderRes::local(p)),
            Err(e) => Err(e),
        }
    }
}

} // verus!
