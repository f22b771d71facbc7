use vstd::prelude::*;

verus! {

/// Which device-class identity a provisioned machine presents as.
#[derive(Debug, Clone, Copy, PartialEq, Eq, Structural)]
pub enum AnisetteFlavor {
    Mac,
    IOS,
}

/// A durable device identity, created by a successful provisioning handshake.
#[derive(Debug)]
pub struct ProvisionedMachine {
    pub client_secret: [u8; 32],
    pub mid: [u8; 60],
    pub metadata: Vec<u8>,
    pub flavor: AnisetteFlavor,
}

/// Storage form of a machine: the machine id is kept as a variable-length sequence.
#[derive(Debug, Clone)]
pub struct ProvisionedMachineSerde {
    pub client_secret: [u8; 32],
    pub mid: Vec<u8>,
    pub metadata: Vec<u8>,
}

/// What a machine holds: client secret, machine id, metadata and flavor.
pub open spec fn machine_model(m: ProvisionedMachine) -> (Seq<u8>, Seq<u8>, Seq<u8>, AnisetteFlavor) {
    (m.client_secret@, m.mid@, m.metadata@, m.flavor)
}

/// What a storage form holds: client secret, machine id and metadata.
pub open spec fn stored_model(s: ProvisionedMachineSerde) -> (Seq<u8>, Seq<u8>, Seq<u8>) {
    (s.client_secret@, s.mid@, s.metadata@)
}

/// The storage form of a machine: its flavor is kept apart.
pub open spec fn store_spec(m: (Seq<u8>, Seq<u8>, Seq<u8>, AnisetteFlavor)) -> (Seq<u8>, Seq<u8>, Seq<u8>) {
    (m.0, m.1, m.2)
}

/// The machine that a storage form gives back with a flavor, if its machine id is 60 bytes.
pub open spec fn load_spec(s: (Seq<u8>, Seq<u8>, Seq<u8>), flavor: AnisetteFlavor) -> Option<
    (Seq<u8>, Seq<u8>, Seq<u8>, AnisetteFlavor),
> {
    if s.1.len() == 60 {
        Some((s.0, s.1, s.2, flavor))
    } else {
        None
    }
}

/// The device-identity implementation that derives one-time codes. The derivation is the
/// implementation's own: `otp_of` and `code_of` name what it gives for a client secret, a
/// machine id and a time step, and a call leaves them unchanged, so equal inputs give equal
/// codes.
pub trait OtpBackend {
    spec fn otp_of(&self, client_secret: Seq<u8>, mid: Seq<u8>, time_step: u64) -> Seq<u8>;

    spec fn code_of(&self, client_secret: Seq<u8>, mid: Seq<u8>, time_step: u64) -> u32;

    /// The one-time code blob.
    fn one_time_code(&mut self, client_secret: &[u8; 32], mid: &[u8; 60], time_step: u64) -> (r:
        Vec<u8>)
        ensures
            r@ == old(self).otp_of(client_secret@, mid@, time_step),
            forall|s: Seq<u8>, m: Seq<u8>, t: u64| #[trigger]
                final(self).otp_of(s, m, t) == old(self).otp_of(s, m, t),
            forall|s: Seq<u8>, m: Seq<u8>, t: u64| #[trigger]
                final(self).code_of(s, m, t) == old(self).code_of(s, m, t),
    ;

    /// The numeric second-factor code.
    fn two_factor_code(&mut self, client_secret: &[u8; 32], mid: &[u8; 60], time_step: u64) -> (r:
        u32)
        ensures
            r == old(self).code_of(client_secret@, mid@, time_step),
            forall|s: Seq<u8>, m: Seq<u8>, t: u64| #[trigger]
                final(self).otp_of(s, m, t) == old(self).otp_of(s, m, t),
            forall|s: Seq<u8>, m: Seq<u8>, t: u64| #[trigger]
                final(self).code_of(s, m, t) == old(self).code_of(s, m, t),
    ;
}

impl ProvisionedMachine {
    /// The one-time code blob for time step `time_step`, as the backend derives it from
    /// this machine's client secret and machine id.
    pub fn generate_otp<B: OtpBackend>(&self, backend: &mut B, time_step: u64) -> (r: Vec<u8>)
        ensures
            r@ == old(backend).otp_of(self.client_secret@, self.mid@, time_step),
            forall|s: Seq<u8>, m: Seq<u8>, t: u64| #[trigger]
                final(backend).otp_of(s, m, t) == old(backend).otp_of(s, m, t),
            forall|s: Seq<u8>, m: Seq<u8>, t: u64| #[trigger]
                final(backend).code_of(s, m, t) == old(backend).code_of(s, m, t),
    {
        backend.one_time_code(&self.client_secret, &self.mid, time_step)
    }

    /// The numeric second-factor code for time step `time_step`, as the backend derives it
    /// from this machine's client secret and machine id.
    pub fn gen_2fa_code<B: OtpBackend>(&self, backend: &mut B, time_step: u64) -> (r: u32)
        ensures
            r == old(backend).code_of(self.client_secret@, self.mid@, time_step),
            forall|s: Seq<u8>, m: Seq<u8>, t: u64| #[trigger]
                final(backend).otp_of(s, m, t) == old(backend).otp_of(s, m, t),
            forall|s: Seq<u8>, m: Seq<u8>, t: u64| #[trigger]
                final(backend).code_of(s, m, t) == old(backend).code_of(s, m, t),
    {
        backend.two_factor_code(&self.client_secret, &self.mid, time_step)
    }

    /// The storage form of this machine.
    pub fn to_serde(&self) -> (r: ProvisionedMachineSerde)
        ensures
            stored_model(r) == store_spec(machine_model(*self)),
    {
        let mut mid: Vec<u8> = Vec::new();
        let mut i: usize = 0;
        while i < 60
            invariant
                i <= 60,
                self.mid@.len() == 60,
                mid@ == self.mid@.subrange(0, i as int),
            decreases 60 - i,
        {
            mid.push(self.mid[i]);
            i = i + 1;
            assert(mid@ =~= self.mid@.subrange(0, i as int));
        }
        assert(mid@ =~= self.mid@);
        ProvisionedMachineSerde {
            client_secret: self.client_secret,
            mid,
            metadata: self.metadata.clone(),
        }
    }

    /// Rebuilds a machine from its storage form; `None` when the machine id is not 60 bytes.
    pub fn from_serde(s: &ProvisionedMachineSerde, flavor: AnisetteFlavor) -> (r: Option<
        ProvisionedMachine,
    >)
        ensures
            r is None <==> load_spec(stored_model(*s), flavor) is None,
            r matches Some(m) ==> load_spec(stored_model(*s), flavor) == Some(machine_model(m)),
    {
        if s.mid.len() != 60 {
            return None;
        }
        let mut mid: [u8; 60] = [0u8; 60];
        let mut i: usize = 0;
        while i < 60
            invariant
                i <= 60,
                s.mid@.len() == 60,
                mid@.len() == 60,
                forall|j: int| 0 <= j < i ==> mid@[j] == s.mid@[j],
            decreases 60 - i,
        {
            mid[i] = s.mid[i];
            i = i + 1;
        }
        assert(mid@ =~= s.mid@);
        Some(
            ProvisionedMachine {
                client_secret: s.client_secret,
                mid,
                metadata: s.metadata.clone(),
                flavor,
            },
        )
    }
}

/// Storing a machine and loading it back with its flavor gives the same client secret,
/// machine id, metadata and flavor.
pub proof fn lemma_storage_round_trip(m: ProvisionedMachine)
    ensures
        load_spec(store_spec(machine_model(m)), m.flavor) == Some(machine_model(m)),
{
    assert(m.mid@.len() == 60);
}

/// Codes depend on the client secret, the machine id and the time step alone: two machines
/// that hold the same secret and machine id get the same blob and the same numeric code at
/// the same time step from a backend; so does a machine stored and loaded back.
pub proof fn lemma_codes_follow_identity<B: OtpBackend>(
    backend: B,
    m1: ProvisionedMachine,
    m2: ProvisionedMachine,
    t: u64,
)
    requires
        m1.client_secret@ == m2.client_secret@,
        m1.mid@ == m2.mid@,
    ensures
        backend.otp_of(m1.client_secret@, m1.mid@, t) == backend.otp_of(
            m2.client_secret@,
            m2.mid@,
            t,
        ),
        backend.code_of(m1.client_secret@, m1.mid@, t) == backend.code_of(
            m2.client_secret@,
            m2.mid@,
            t,
        ),
{
}

/// A machine loaded back from the storage form of another one gets the same codes from a
/// backend at every time step.
pub proof fn lemma_reloaded_machine_same_codes<B: OtpBackend>(
    backend: B,
    m: ProvisionedMachine,
    loaded: ProvisionedMachine,
    t: u64,
)
    requires
        load_spec(store_spec(machine_model(m)), m.flavor) == Some(machine_model(loaded)),
    ensures
        backend.otp_of(loaded.client_secret@, loaded.mid@, t) == backend.otp_of(
            m.client_secret@,
            m.mid@,
            t,
        ),
        backend.code_of(loaded.client_secret@, loaded.mid@, t) == backend.code_of(
            m.client_secret@,
            m.mid@,
            t,
        ),
{
    lemma_storage_round_trip(m);
}

} // verus!
