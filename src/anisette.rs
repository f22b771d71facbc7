use vstd::prelude::*;
use crate::headers::{
    HeaderMap, HeaderProfile, LoginClientInfo, project, project_entries, project_spec, normalize,
    keys_unique, remove_key, lemma_normalize, keep_allowed,
    field_entries, key_set, is_allowed, field_keys, lemma_key_set_concat, lemma_keep_allowed_keys,
    lemma_field_entries_keys,
};
use crate::profiles::{
    gsservice_allowed, gsservice_fields, gsservice_profile, postdata_allowed, postdata_fields,
    postdata_profile, circle_allowed, circle_fields, circle_profile, takedown_allowed,
    takedown_fields, takedown_profile, extra_allowed, extra_fields, extra_profile, cpd_allowed,
    cpd_fields, cpd_profile,
};

verus! {

/// A typed value of the client provisioning data.
#[derive(Debug, Clone, PartialEq, Eq)]
pub enum CpdValue {
    String(String),
    Boolean(bool),
    Integer(i64),
}

/// What a typed value holds.
pub enum CpdValueModel {
    String(Seq<char>),
    Boolean(bool),
    Integer(i64),
}

pub open spec fn cpd_value_model(v: CpdValue) -> CpdValueModel {
    match v {
        CpdValue::String(s) => CpdValueModel::String(s@),
        CpdValue::Boolean(b) => CpdValueModel::Boolean(b),
        CpdValue::Integer(n) => CpdValueModel::Integer(n),
    }
}

/// Client provisioning data: an ordered list of typed fields, a later one overriding an
/// earlier one of the same key.
pub struct CpdData {
    pub entries: Vec<(String, CpdValue)>,
}

impl View for CpdData {
    type V = Seq<(Seq<char>, CpdValueModel)>;

    open spec fn view(&self) -> Seq<(Seq<char>, CpdValueModel)> {
        self.entries@.map_values(|e: (String, CpdValue)| (e.0@, cpd_value_model(e.1)))
    }
}

pub open spec fn as_texts(s: Seq<(Seq<char>, Seq<char>)>) -> Seq<(Seq<char>, CpdValueModel)> {
    s.map_values(|e: (Seq<char>, Seq<char>)| (e.0, CpdValueModel::String(e.1)))
}

pub open spec fn push_token_entries(info: LoginClientInfo) -> Seq<(Seq<char>, CpdValueModel)> {
    match info.push_token {
        Some(t) => seq![("ptkn"@, CpdValueModel::String(t@))],
        None => Seq::empty(),
    }
}

/// The boolean and integer fields of the client provisioning data.
pub open spec fn cpd_flags() -> Seq<(Seq<char>, CpdValueModel)> {
    seq![
        ("X-Apple-Offer-Security-Upgrade"@, CpdValueModel::Boolean(true)),
        ("at"@, CpdValueModel::Integer(0)),
        ("bootstrap"@, CpdValueModel::Boolean(true)),
        ("ckgen"@, CpdValueModel::Boolean(true)),
        ("fcd"@, CpdValueModel::Boolean(true)),
        ("icdrsDisabled"@, CpdValueModel::Boolean(false)),
        ("icscrec"@, CpdValueModel::Boolean(true)),
        ("pbe"@, CpdValueModel::Boolean(false)),
        ("prkgen"@, CpdValueModel::Boolean(true)),
        ("webAccessEnabled"@, CpdValueModel::Boolean(false)),
    ]
}

/// The client provisioning data for base headers, client info and request id: allowed
/// base headers, the push token if any, the string fields, the flags, and the hardware
/// headers.
pub open spec fn cpd_spec(
    base: Seq<(Seq<char>, Seq<char>)>,
    info: LoginClientInfo,
    request: Seq<char>,
) -> Seq<(Seq<char>, CpdValueModel)> {
    as_texts(keep_allowed(base, cpd_allowed())) + push_token_entries(info) + as_texts(
        field_entries(cpd_fields(), info, request),
    ) + cpd_flags() + as_texts(info.hardware_headers@)
}

impl CpdValue {
    /// A copy with the same contents.
    pub fn duplicate(&self) -> (r: CpdValue)
        ensures
            cpd_value_model(r) == cpd_value_model(*self),
    {
        match self {
            CpdValue::String(t) => CpdValue::String(t.clone()),
            CpdValue::Boolean(b) => CpdValue::Boolean(*b),
            CpdValue::Integer(n) => CpdValue::Integer(*n),
        }
    }
}

impl CpdData {
    /// Sets `key` to `value`, dropping every earlier entry of `key`.
    pub fn upsert(&mut self, key: String, value: CpdValue)
        ensures
            final(self)@ == remove_key(old(self)@, key@).push((key@, cpd_value_model(value))),
    {
        let ghost s = old(self)@;
        let mut kept: Vec<(String, CpdValue)> = Vec::new();
        let mut i: usize = 0;
        while i < self.entries.len()
            invariant
                i <= self.entries@.len(),
                self@ == s,
                kept@.map_values(|e: (String, CpdValue)| (e.0@, cpd_value_model(e.1))) == remove_key(
                    s.subrange(0, i as int),
                    key@,
                ),
            decreases self.entries@.len() - i,
        {
            assert(s.subrange(0, i as int) =~= s.subrange(0, i + 1).drop_last());
            let ghost before = kept@.map_values(
                |e: (String, CpdValue)| (e.0@, cpd_value_model(e.1)),
            );
            if self.entries[i].0 != key {
                kept.push((self.entries[i].0.clone(), self.entries[i].1.duplicate()));
                assert(kept@.map_values(|e: (String, CpdValue)| (e.0@, cpd_value_model(e.1)))
                    =~= before.push(s[i as int]));
            }
            i = i + 1;
        }
        assert(s.subrange(0, i as int) =~= s);
        kept.push((key, value));
        self.entries = kept;
        assert(final(self)@ =~= remove_key(s, key@).push((key@, cpd_value_model(value))));
    }

    /// The same entries with each key once: the value and place of its last entry.
    pub fn normalized(&self) -> (r: CpdData)
        ensures
            r@ == normalize(self@),
    {
        let mut r = CpdData { entries: Vec::new() };
        assert(r@ =~= Seq::empty());
        let mut i: usize = 0;
        while i < self.entries.len()
            invariant
                i <= self@.len(),
                self@.len() == self.entries@.len(),
                r@ == normalize(self@.subrange(0, i as int)),
            decreases self.entries@.len() - i,
        {
            assert(self@.subrange(0, i as int) =~= self@.subrange(0, i + 1).drop_last());
            assert(self@[i as int] == (
                self.entries@[i as int].0@,
                cpd_value_model(self.entries@[i as int].1),
            ));
            r.upsert(self.entries[i].0.clone(), self.entries[i].1.duplicate());
            i = i + 1;
        }
        assert(self@.subrange(0, i as int) =~= self@);
        r
    }

    fn append_texts(&mut self, h: &HeaderMap)
        ensures
            final(self)@ == old(self)@ + as_texts(h@),
    {
        let ghost start = self@;
        let mut i: usize = 0;
        while i < h.entries.len()
            invariant
                i <= h@.len(),
                h@.len() == h.entries@.len(),
                self@ == start + as_texts(h@.subrange(0, i as int)),
            decreases h.entries@.len() - i,
        {
            let e = &h.entries[i];
            let ghost before = self@;
            assert(h@[i as int] == (e.0@, e.1@));
            self.entries.push((e.0.clone(), CpdValue::String(e.1.clone())));
            assert(self@ =~= before.push((e.0@, CpdValueModel::String(e.1@))));
            assert(as_texts(h@.subrange(0, i + 1)) =~= as_texts(h@.subrange(0, i as int)).push(
                (e.0@, CpdValueModel::String(e.1@)),
            ));
            i = i + 1;
            assert(self@ =~= start + as_texts(h@.subrange(0, i as int)));
        }
        assert(h@.subrange(0, i as int) =~= h@);
    }

    fn push_entry(&mut self, key: &str, value: CpdValue)
        ensures
            final(self)@ == old(self)@.push((key@, cpd_value_model(value))),
    {
        self.entries.push((key.to_owned(), value));
        assert(final(self)@ =~= old(self)@.push((key@, cpd_value_model(value))));
    }
}

/// Base headers from a backend, together with the client identity.
pub struct AnisetteData {
    pub base_headers: HeaderMap,
    pub client_info: LoginClientInfo,
}

impl AnisetteData {
    pub fn new(base_headers: HeaderMap, client_info: LoginClientInfo) -> (r: AnisetteData)
        ensures
            r.base_headers == base_headers,
            r.client_info == client_info,
    {
        AnisetteData { base_headers, client_info }
    }

    pub fn get_gsservice_headers(&self) -> (r: HeaderMap)
        ensures
            r@ == normalize(
                project_spec(
                    self.base_headers@,
                    gsservice_allowed(),
                    gsservice_fields(),
                    false,
                    self.client_info,
                    Seq::empty(),
                ),
            ),
            keys_unique(r@),
    {
        let r = project(&self.base_headers, &gsservice_profile(), &self.client_info, "");
        proof {
            reveal_strlit("");
            assert(""@ =~= Seq::<char>::empty());
        }
        r
    }

    pub fn get_postdata_headers(&self) -> (r: HeaderMap)
        ensures
            r@ == normalize(
                project_spec(
                    self.base_headers@,
                    postdata_allowed(),
                    postdata_fields(),
                    false,
                    self.client_info,
                    Seq::empty(),
                ),
            ),
            keys_unique(r@),
    {
        let r = project(&self.base_headers, &postdata_profile(), &self.client_info, "");
        proof {
            reveal_strlit("");
            assert(""@ =~= Seq::<char>::empty());
        }
        r
    }

    pub fn get_circle_headers(&self) -> (r: HeaderMap)
        ensures
            r@ == normalize(
                project_spec(
                    self.base_headers@,
                    circle_allowed(),
                    circle_fields(),
                    false,
                    self.client_info,
                    Seq::empty(),
                ),
            ),
            keys_unique(r@),
    {
        let r = project(&self.base_headers, &circle_profile(), &self.client_info, "");
        proof {
            reveal_strlit("");
            assert(""@ =~= Seq::<char>::empty());
        }
        r
    }

    pub fn get_takedown_headers(&self) -> (r: HeaderMap)
        ensures
            r@ == normalize(
                project_spec(
                    self.base_headers@,
                    takedown_allowed(),
                    takedown_fields(),
                    false,
                    self.client_info,
                    Seq::empty(),
                ),
            ),
            keys_unique(r@),
    {
        let r = project(&self.base_headers, &takedown_profile(), &self.client_info, "");
        proof {
            reveal_strlit("");
            assert(""@ =~= Seq::<char>::empty());
        }
        r
    }

    pub fn get_extra_headers(&self) -> (r: HeaderMap)
        ensures
            r@ == normalize(
                project_spec(
                    self.base_headers@,
                    extra_allowed(),
                    extra_fields(),
                    true,
                    self.client_info,
                    Seq::empty(),
                ),
            ),
            keys_unique(r@),
    {
        let r = project(&self.base_headers, &extra_profile(), &self.client_info, "");
        proof {
            reveal_strlit("");
            assert(""@ =~= Seq::<char>::empty());
        }
        r
    }

    /// The client provisioning data for request id `request`; of entries with the same key
    /// only the last is kept.
    pub fn get_cpd_data(&self, request: &str) -> (r: CpdData)
        ensures
            r@ == normalize(cpd_spec(self.base_headers@, self.client_info, request@)),
            keys_unique(r@),
    {
        let table = cpd_profile();
        let passed = project_entries(
            &self.base_headers,
            &HeaderProfile { allowed: table.allowed, fields: Vec::new(), hardware: false },
            &self.client_info,
            request,
        );
        let empty = HeaderMap::new();
        let fields = project_entries(
            &empty,
            &HeaderProfile { allowed: Vec::new(), fields: table.fields, hardware: false },
            &self.client_info,
            request,
        );
        assert(keep_allowed(empty@, Seq::<&'static str>::empty()) =~= Seq::empty()) by {
            assert(empty@.len() == 0);
        }
        let mut r = CpdData { entries: Vec::new() };
        assert(r@ =~= Seq::empty());
        assert(passed@ =~= keep_allowed(self.base_headers@, cpd_allowed()));
        r.append_texts(&passed);
        match &self.client_info.push_token {
            Some(t) => r.push_entry("ptkn", CpdValue::String(t.clone())),
            None => {},
        }
        assert(fields@ =~= field_entries(cpd_fields(), self.client_info, request@));
        r.append_texts(&fields);
        r.push_entry("X-Apple-Offer-Security-Upgrade", CpdValue::Boolean(true));
        r.push_entry("at", CpdValue::Integer(0));
        r.push_entry("bootstrap", CpdValue::Boolean(true));
        r.push_entry("ckgen", CpdValue::Boolean(true));
        r.push_entry("fcd", CpdValue::Boolean(true));
        r.push_entry("icdrsDisabled", CpdValue::Boolean(false));
        r.push_entry("icscrec", CpdValue::Boolean(true));
        r.push_entry("pbe", CpdValue::Boolean(false));
        r.push_entry("prkgen", CpdValue::Boolean(true));
        r.push_entry("webAccessEnabled", CpdValue::Boolean(false));
        r.append_texts(&self.client_info.hardware_headers);
        assert(r@ =~= cpd_spec(self.base_headers@, self.client_info, request@));
        proof {
            lemma_normalize(r@);
        }
        r.normalized()
    }
}

pub proof fn lemma_as_texts_keys(s: Seq<(Seq<char>, Seq<char>)>)
    ensures
        key_set(as_texts(s)) == key_set(s),
{
    let t = as_texts(s);
    assert forall|k: Seq<char>| key_set(t).contains(k) implies #[trigger] key_set(s).contains(k) by {
        let i = choose|i: int| 0 <= i < t.len() && #[trigger] t[i].0 == k;
        assert(s[i].0 == k);
    }
    assert forall|k: Seq<char>| #[trigger] key_set(s).contains(k) implies key_set(t).contains(k) by {
        let i = choose|i: int| 0 <= i < s.len() && #[trigger] s[i].0 == k;
        assert(t[i].0 == k);
    }
    assert(key_set(t) =~= key_set(s));
}

/// The keys of the client provisioning data are exactly its allowed base header keys,
/// `ptkn` when the client has a push token, the keys of its string fields and of its flags,
/// and the hardware header keys.
pub proof fn lemma_cpd_key_space(
    base: Seq<(Seq<char>, Seq<char>)>,
    info: LoginClientInfo,
    request: Seq<char>,
)
    ensures
        key_set(normalize(cpd_spec(base, info, request))) == key_set(base).filter(
            |k: Seq<char>| is_allowed(cpd_allowed(), k),
        ).union(key_set(push_token_entries(info))).union(field_keys(cpd_fields())).union(
            key_set(cpd_flags()),
        ).union(key_set(info.hardware_headers@)),
        key_set(push_token_entries(info)) == (if info.push_token is Some {
            Set::empty().insert("ptkn"@)
        } else {
            Set::empty()
        }),
{
    let a = as_texts(keep_allowed(base, cpd_allowed()));
    let p = push_token_entries(info);
    let f = as_texts(field_entries(cpd_fields(), info, request));
    let h = as_texts(info.hardware_headers@);
    lemma_normalize(cpd_spec(base, info, request));
    lemma_keep_allowed_keys(base, cpd_allowed());
    lemma_as_texts_keys(keep_allowed(base, cpd_allowed()));
    lemma_field_entries_keys(cpd_fields(), info, request);
    lemma_as_texts_keys(field_entries(cpd_fields(), info, request));
    lemma_as_texts_keys(info.hardware_headers@);
    lemma_key_set_concat(a, p);
    lemma_key_set_concat(a + p, f);
    lemma_key_set_concat(a + p + f, cpd_flags());
    lemma_key_set_concat(a + p + f + cpd_flags(), h);
    if info.push_token is Some {
        assert(p[0].0 == "ptkn"@);
        assert(key_set(p) =~= Set::empty().insert("ptkn"@));
    } else {
        assert(key_set(p) =~= Set::empty());
    }
}

} // verus!
