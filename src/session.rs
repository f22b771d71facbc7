use vstd::prelude::*;
use crate::error::{ClearAdiError, ADI_INVALID_ARGUMENT, ADI_PROTOCOL_MISMATCH};
use crate::machine::{AnisetteFlavor, ProvisionedMachine, machine_model};

verus! {

/// The device-identity implementation that performs the cryptography of the handshake.
/// Errors are the implementation's own codes. `start_answer` and `end_answer` name what it
/// answers to each step in its present state.
pub trait ProvisioningBackend {
    spec fn start_answer(
        &self,
        spim: Seq<u8>,
        host_uuid: Seq<u8>,
        dsid: i64,
        flavor: AnisetteFlavor,
    ) -> Result<(u64, Seq<u8>), i32>;

    spec fn end_answer(&self, session: u64, tk: Seq<u8>, ptm: Seq<u8>) -> Result<
        (Seq<u8>, Seq<u8>, Seq<u8>),
        i32,
    >;

    /// Submits the authority's challenge; yields a handle for the in-progress exchange and
    /// the blob that the authority must receive.
    fn start_provisioning(
        &mut self,
        spim: &[u8],
        host_uuid: &[u8],
        dsid: i64,
        flavor: AnisetteFlavor,
    ) -> (r: Result<(u64, Vec<u8>), i32>)
        ensures
            start_model(r) == old(self).start_answer(spim@, host_uuid@, dsid, flavor),
    ;

    /// Submits the authority's answer for a handle; yields the client secret, the machine
    /// id and the backend metadata.
    fn end_provisioning(&mut self, session: u64, tk: &[u8], ptm: &[u8]) -> (r: Result<
        ([u8; 32], Vec<u8>, Vec<u8>),
        i32,
    >)
        ensures
            end_model(r) == old(self).end_answer(session, tk@, ptm@),
    ;
}

/// What a backend's answer to the start of a handshake holds.
pub open spec fn start_model(r: Result<(u64, Vec<u8>), i32>) -> Result<(u64, Seq<u8>), i32> {
    match r {
        Ok((h, blob)) => Ok((h, blob@)),
        Err(c) => Err(c),
    }
}

/// What a backend's answer to the end of a handshake holds.
pub open spec fn end_model(r: Result<([u8; 32], Vec<u8>, Vec<u8>), i32>) -> Result<
    (Seq<u8>, Seq<u8>, Seq<u8>),
    i32,
> {
    match r {
        Ok((secret, mid, metadata)) => Ok((secret@, mid@, metadata@)),
        Err(c) => Err(c),
    }
}

/// A started provisioning handshake. It is neither `Clone` nor `Copy`: `finish` consumes it,
/// so a session cannot be finished twice.
pub struct ProvisioningSession {
    handle: u64,
    flavor: AnisetteFlavor,
}

/// Builds a machine from what the backend handed back at the end of a handshake.
pub fn machine_from_parts(
    client_secret: [u8; 32],
    mid: Vec<u8>,
    metadata: Vec<u8>,
    flavor: AnisetteFlavor,
) -> (r: Result<ProvisionedMachine, ClearAdiError>)
    ensures
        r is Err <==> mid@.len() != 60,
        r matches Err(e) ==> e == ClearAdiError(ADI_PROTOCOL_MISMATCH),
        r matches Ok(m) ==> machine_model(m) == (client_secret@, mid@, metadata@, flavor),
{
    if mid.len() != 60 {
        return Err(ClearAdiError(ADI_PROTOCOL_MISMATCH));
    }
    let mut id: [u8; 60] = [0u8; 60];
    let mut i: usize = 0;
    while i < 60
        invariant
            i <= 60,
            mid@.len() == 60,
            id@.len() == 60,
            forall|j: int| 0 <= j < i ==> id@[j] == mid@[j],
        decreases 60 - i,
    {
        id[i] = mid[i];
        i = i + 1;
    }
    assert(id@ =~= mid@);
    Ok(ProvisionedMachine { client_secret, mid: id, metadata, flavor })
}

/// `r` is what a handshake gives for the backend's answer `started` to its start.
pub open spec fn start_accepted(
    started: Result<(u64, Seq<u8>), i32>,
    flavor: AnisetteFlavor,
    r: Result<(ProvisioningSession, Vec<u8>), ClearAdiError>,
) -> bool {
    match started {
        Ok((h, blob)) => r matches Ok((s, b)) && s.spec_handle() == h && s.spec_flavor() == flavor
            && b@ == blob,
        Err(c) => r == Err::<(ProvisioningSession, Vec<u8>), _>(ClearAdiError(c)),
    }
}

/// `r` is what a handshake of flavor `flavor` gives for the backend's answer `ended` to its end.
pub open spec fn end_accepted(
    ended: Result<(Seq<u8>, Seq<u8>, Seq<u8>), i32>,
    flavor: AnisetteFlavor,
    r: Result<ProvisionedMachine, ClearAdiError>,
) -> bool {
    match ended {
        Ok((secret, mid, metadata)) => {
            &&& (r is Err <==> mid.len() != 60)
            &&& r matches Err(e) ==> e == ClearAdiError(ADI_PROTOCOL_MISMATCH)
            &&& r matches Ok(m) ==> machine_model(m) == (secret, mid, metadata, flavor)
        },
        Err(c) => r == Err::<ProvisionedMachine, _>(ClearAdiError(c)),
    }
}

/// The library's own check of the inputs of a handshake step: both are non-empty.
pub fn handshake_inputs_valid(first: &[u8], second: &[u8]) -> (r: bool)
    ensures
        r == (first@.len() > 0 && second@.len() > 0),
{
    first.len() > 0 && second.len() > 0
}

impl ProvisioningSession {
    pub closed spec fn spec_flavor(&self) -> AnisetteFlavor {
        self.flavor
    }

    pub closed spec fn spec_handle(&self) -> u64 {
        self.handle
    }

    /// Makes the session out of the backend's answer to the start of a handshake.
    pub fn accept_start(started: Result<(u64, Vec<u8>), i32>, flavor: AnisetteFlavor) -> (r: Result<
        (Self, Vec<u8>),
        ClearAdiError,
    >)
        ensures
            start_accepted(start_model(started), flavor, r),
    {
        match started {
            Ok((handle, cpim)) => Ok((ProvisioningSession { handle, flavor }, cpim)),
            Err(code) => Err(ClearAdiError(code)),
        }
    }

    /// Consumes the session with the backend's answer to the end of the handshake.
    pub fn accept_end(self, ended: Result<([u8; 32], Vec<u8>, Vec<u8>), i32>) -> (r: Result<
        ProvisionedMachine,
        ClearAdiError,
    >)
        ensures
            end_accepted(end_model(ended), self.spec_flavor(), r),
    {
        match ended {
            Ok((secret, mid, metadata)) => machine_from_parts(secret, mid, metadata, self.flavor),
            Err(code) => Err(ClearAdiError(code)),
        }
    }

    pub fn flavor(&self) -> (r: AnisetteFlavor)
        ensures
            r == self.spec_flavor(),
    {
        self.flavor
    }

    /// Starts a handshake. Fails with the invalid-argument code, and makes no session, when
    /// the challenge or the host identifier is empty; otherwise passes both on to the backend
    /// and returns what `accept_start` makes of its answer.
    pub fn new<B: ProvisioningBackend>(
        backend: &mut B,
        spim: &[u8],
        hostuuid: &[u8],
        dsid: i64,
        flavor: AnisetteFlavor,
    ) -> (r: Result<(Self, Vec<u8>), ClearAdiError>)
        ensures
            !(spim@.len() > 0 && hostuuid@.len() > 0) ==> r == Err::<(Self, Vec<u8>), _>(
                ClearAdiError(ADI_INVALID_ARGUMENT),
            ),
            spim@.len() > 0 && hostuuid@.len() > 0 ==> exists|started: Result<(u64, Vec<u8>), i32>|
                start_accepted(start_model(started), flavor, r),
    {
        if !handshake_inputs_valid(spim, hostuuid) {
            return Err(ClearAdiError(ADI_INVALID_ARGUMENT));
        }
        let started = backend.start_provisioning(spim, hostuuid, dsid, flavor);
        let r = Self::accept_start(started, flavor);
        r
    }

    /// Completes the handshake, consuming the session. Fails with the invalid-argument code
    /// when the token or the provisioning material is empty; otherwise passes both on to the
    /// backend and returns what `accept_end` makes of its answer: the backend's code when it
    /// rejects, the protocol code when its machine id is not 60 bytes, else the machine.
    pub fn finish<B: ProvisioningBackend>(self, backend: &mut B, tk: &[u8], ptm: &[u8]) -> (r:
        Result<ProvisionedMachine, ClearAdiError>)
        ensures
            !(tk@.len() > 0 && ptm@.len() > 0) ==> r == Err::<ProvisionedMachine, _>(
                ClearAdiError(ADI_INVALID_ARGUMENT),
            ),
            tk@.len() > 0 && ptm@.len() > 0 ==> exists|
                ended: Result<([u8; 32], Vec<u8>, Vec<u8>), i32>,
            | end_accepted(end_model(ended), self.spec_flavor(), r),
    {
        if !handshake_inputs_valid(tk, ptm) {
            return Err(ClearAdiError(ADI_INVALID_ARGUMENT));
        }
        let ended = backend.end_provisioning(self.handle, tk, ptm);
        let r = self.accept_end(ended);
        r
    }
}

} // verus!
