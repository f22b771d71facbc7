use vstd::prelude::*;
use crate::machine::{AnisetteFlavor, OtpBackend};
use crate::session::ProvisioningBackend;

verus! {

/// A copy of a byte sequence.
pub fn copy_bytes(v: &Vec<u8>) -> (r: Vec<u8>)
    ensures
        r@ == v@,
{
    let mut r: Vec<u8> = Vec::new();
    let mut i: usize = 0;
    while i < v.len()
        invariant
            i <= v@.len(),
            r@ == v@.subrange(0, i as int),
        decreases v@.len() - i,
    {
        r.push(v[i]);
        i = i + 1;
        assert(r@ =~= v@.subrange(0, i as int));
    }
    assert(r@ =~= v@);
    r
}

/// A provisioning backend that plays back answers recorded from a provisioning authority:
/// the same start answer and end answer whatever it is asked. It counts the starts.
pub struct ScriptedBackend {
    pub start: Result<(u64, Vec<u8>), i32>,
    pub end: Result<([u8; 32], Vec<u8>, Vec<u8>), i32>,
    pub starts: u64,
}

impl ProvisioningBackend for ScriptedBackend {
    open spec fn start_answer(
        &self,
        spim: Seq<u8>,
        host_uuid: Seq<u8>,
        dsid: i64,
        flavor: AnisetteFlavor,
    ) -> Result<(u64, Seq<u8>), i32> {
        match self.start {
            Ok((h, blob)) => Ok((h, blob@)),
            Err(c) => Err(c),
        }
    }

    open spec fn end_answer(&self, session: u64, tk: Seq<u8>, ptm: Seq<u8>) -> Result<
        (Seq<u8>, Seq<u8>, Seq<u8>),
        i32,
    > {
        match self.end {
            Ok((secret, mid, metadata)) => Ok((secret@, mid@, metadata@)),
            Err(c) => Err(c),
        }
    }

    fn start_provisioning(
        &mut self,
        spim: &[u8],
        host_uuid: &[u8],
        dsid: i64,
        flavor: AnisetteFlavor,
    ) -> (r: Result<(u64, Vec<u8>), i32>) {
        if self.starts < u64::MAX {
            self.starts = self.starts + 1;
        }
        match &self.start {
            Ok((h, blob)) => Ok((*h, copy_bytes(blob))),
            Err(c) => Err(*c),
        }
    }

    fn end_provisioning(&mut self, session: u64, tk: &[u8], ptm: &[u8]) -> (r: Result<
        ([u8; 32], Vec<u8>, Vec<u8>),
        i32,
    >) {
        match &self.end {
            Ok((secret, mid, metadata)) => Ok((*secret, copy_bytes(mid), copy_bytes(metadata))),
            Err(c) => Err(*c),
        }
    }
}

/// The entry of a code table for a time step: its last entry for that step.
pub open spec fn table_entry(entries: Seq<(u64, Seq<u8>, u32)>, t: u64) -> Option<(Seq<u8>, u32)>
    decreases entries.len(),
{
    if entries.len() == 0 {
        None
    } else if entries.last().0 == t {
        Some((entries.last().1, entries.last().2))
    } else {
        table_entry(entries.drop_last(), t)
    }
}

/// A code backend that plays back codes recorded per time step, for every machine. A time
/// step without an entry gets an empty blob and the code zero.
pub struct TableOtpBackend {
    pub entries: Vec<(u64, Vec<u8>, u32)>,
}

impl TableOtpBackend {
    pub open spec fn model(&self) -> Seq<(u64, Seq<u8>, u32)> {
        self.entries@.map_values(|e: (u64, Vec<u8>, u32)| (e.0, e.1@, e.2))
    }

    fn find(&self, t: u64) -> (r: Option<usize>)
        ensures
            r is None ==> table_entry(self.model(), t) is None,
            r matches Some(i) ==> i < self.entries@.len() && table_entry(self.model(), t) == Some(
                (self.entries@[i as int].1@, self.entries@[i as int].2),
            ),
    {
        let mut i: usize = self.entries.len();
        assert(self.model().subrange(0, i as int) =~= self.model());
        while i > 0
            invariant
                i <= self.entries@.len(),
                table_entry(self.model(), t) == table_entry(self.model().subrange(0, i as int), t),
            decreases i,
        {
            assert(self.model().subrange(0, i - 1) =~= self.model().subrange(0, i as int).drop_last());
            if self.entries[i - 1].0 == t {
                return Some(i - 1);
            }
            i = i - 1;
        }
        None
    }
}

impl OtpBackend for TableOtpBackend {
    open spec fn otp_of(&self, client_secret: Seq<u8>, mid: Seq<u8>, time_step: u64) -> Seq<u8> {
        match table_entry(self.model(), time_step) {
            Some((blob, _)) => blob,
            None => Seq::empty(),
        }
    }

    open spec fn code_of(&self, client_secret: Seq<u8>, mid: Seq<u8>, time_step: u64) -> u32 {
        match table_entry(self.model(), time_step) {
            Some((_, code)) => code,
            None => 0,
        }
    }

    fn one_time_code(&mut self, client_secret: &[u8; 32], mid: &[u8; 60], time_step: u64) -> (r:
        Vec<u8>) {
        match self.find(time_step) {
            Some(i) => copy_bytes(&self.entries[i].1),
            None => Vec::new(),
        }
    }

    fn two_factor_code(&mut self, client_secret: &[u8; 32], mid: &[u8; 60], time_step: u64) -> (r:
        u32) {
        match self.find(time_step) {
            Some(i) => self.entries[i].2,
            None => 0,
        }
    }
}

} // verus!
