use vstd::prelude::*;

verus! {

/// An ordered list of header entries; a later entry for a key overrides an earlier one.
#[derive(Debug, Clone)]
pub struct HeaderMap {
    pub entries: Vec<(String, String)>,
}

impl View for HeaderMap {
    type V = Seq<(Seq<char>, Seq<char>)>;

    open spec fn view(&self) -> Seq<(Seq<char>, Seq<char>)> {
        self.entries@.map_values(|e: (String, String)| (e.0@, e.1@))
    }
}

/// The keys that occur in a list of entries.
pub open spec fn key_set<V>(s: Seq<(Seq<char>, V)>) -> Set<Seq<char>> {
    Set::new(|k: Seq<char>| exists|i: int| 0 <= i < s.len() && #[trigger] s[i].0 == k)
}

/// The value that a list of entries gives a key: that of its last entry.
pub open spec fn lookup(s: Seq<(Seq<char>, Seq<char>)>, k: Seq<char>) -> Option<Seq<char>>
    decreases s.len(),
{
    if s.len() == 0 {
        None
    } else if s.last().0 == k {
        Some(s.last().1)
    } else {
        lookup(s.drop_last(), k)
    }
}

/// No key occurs twice.
pub open spec fn keys_unique<V>(s: Seq<(Seq<char>, V)>) -> bool {
    forall|i: int, j: int| 0 <= i < j < s.len() ==> #[trigger] s[i].0 != #[trigger] s[j].0
}

/// The entries whose key is not `k`, in their order.
pub open spec fn remove_key<V>(s: Seq<(Seq<char>, V)>, k: Seq<char>) -> Seq<(Seq<char>, V)>
    decreases s.len(),
{
    if s.len() == 0 {
        Seq::empty()
    } else {
        let r = remove_key(s.drop_last(), k);
        if s.last().0 == k {
            r
        } else {
            r.push(s.last())
        }
    }
}

/// Each key once, with the value of its last entry, in the order of the last entries.
pub open spec fn normalize<V>(s: Seq<(Seq<char>, V)>) -> Seq<(Seq<char>, V)>
    decreases s.len(),
{
    if s.len() == 0 {
        Seq::empty()
    } else {
        remove_key(normalize(s.drop_last()), s.last().0).push(s.last())
    }
}

impl HeaderMap {
    pub fn new() -> (r: HeaderMap)
        ensures
            r@ == Seq::<(Seq<char>, Seq<char>)>::empty(),
    {
        let r = HeaderMap { entries: Vec::new() };
        assert(r@ =~= Seq::<(Seq<char>, Seq<char>)>::empty());
        r
    }

    /// Appends an entry, which overrides any earlier one of the same key.
    pub fn insert(&mut self, key: String, value: String)
        ensures
            final(self)@ == old(self)@.push((key@, value@)),
    {
        self.entries.push((key, value));
        assert(final(self)@ =~= old(self)@.push((key@, value@)));
    }

    /// Sets `key` to `value`, dropping every earlier entry of `key`.
    pub fn upsert(&mut self, key: String, value: String)
        ensures
            final(self)@ == remove_key(old(self)@, key@).push((key@, value@)),
    {
        let ghost s = old(self)@;
        let mut kept: Vec<(String, String)> = Vec::new();
        let mut i: usize = 0;
        while i < self.entries.len()
            invariant
                i <= self.entries@.len(),
                self@ == s,
                kept@.map_values(|e: (String, String)| (e.0@, e.1@)) == remove_key(
                    s.subrange(0, i as int),
                    key@,
                ),
            decreases self.entries@.len() - i,
        {
            assert(s.subrange(0, i as int) =~= s.subrange(0, i + 1).drop_last());
            let ghost before = kept@.map_values(|e: (String, String)| (e.0@, e.1@));
            if self.entries[i].0 != key {
                kept.push((self.entries[i].0.clone(), self.entries[i].1.clone()));
                assert(kept@.map_values(|e: (String, String)| (e.0@, e.1@)) =~= before.push(s[i as int]));
            }
            i = i + 1;
        }
        assert(s.subrange(0, i as int) =~= s);
        kept.push((key, value));
        self.entries = kept;
        assert(final(self)@ =~= remove_key(s, key@).push((key@, value@)));
    }

    /// The same entries with each key once: the value and place of its last entry.
    pub fn normalized(&self) -> (r: HeaderMap)
        ensures
            r@ == normalize(self@),
    {
        let mut r = HeaderMap::new();
        let mut i: usize = 0;
        while i < self.entries.len()
            invariant
                i <= self@.len(),
                self@.len() == self.entries@.len(),
                r@ == normalize(self@.subrange(0, i as int)),
            decreases self.entries@.len() - i,
        {
            assert(self@.subrange(0, i as int) =~= self@.subrange(0, i + 1).drop_last());
            assert(self@[i as int] == (self.entries@[i as int].0@, self.entries@[i as int].1@));
            r.upsert(self.entries[i].0.clone(), self.entries[i].1.clone());
            i = i + 1;
        }
        assert(self@.subrange(0, i as int) =~= self@);
        r
    }

    pub fn len(&self) -> (r: usize)
        ensures
            r == self@.len(),
    {
        self.entries.len()
    }

    /// The value given to `key`, by its last entry.
    pub fn get(&self, key: &str) -> (r: Option<&String>)
        ensures
            r matches Some(v) ==> lookup(self@, key@) == Some(v@),
            r is None ==> lookup(self@, key@) is None,
    {
        let k = key.to_owned();
        let mut i: usize = self.entries.len();
        assert(self@.subrange(0, i as int) =~= self@);
        while i > 0
            invariant
                i <= self.entries@.len(),
                k@ == key@,
                lookup(self@, key@) == lookup(self@.subrange(0, i as int), key@),
            decreases i,
        {
            let e = &self.entries[i - 1];
            assert(self@[i - 1] == (e.0@, e.1@));
            assert(self@.subrange(0, i - 1) =~= self@.subrange(0, i as int).drop_last());
            if e.0 == k {
                return Some(&e.1);
            }
            i = i - 1;
        }
        None
    }

    pub fn contains_key(&self, key: &str) -> (r: bool)
        ensures
            r == lookup(self@, key@) is Some,
    {
        self.get(key).is_some()
    }
}

/// Where a profile takes the value of one of its fields from.
#[derive(Debug, Clone, Copy)]
pub enum FieldSource {
    Text(&'static str),
    AkContextType,
    ClientAppName,
    ClientBundleId,
    MmeClientInfo,
    MmeClientInfoAkd,
    AkdUserAgent,
    BrowserUserAgent,
    RequestId,
}

/// Per-application identity shared by every header profile.
#[derive(Debug, Clone)]
pub struct LoginClientInfo {
    pub ak_context_type: String,
    pub client_app_name: String,
    pub client_bundle_id: String,
    pub mme_client_info: String,
    pub mme_client_info_akd: String,
    pub akd_user_agent: String,
    pub browser_user_agent: String,
    pub hardware_headers: HeaderMap,
    pub push_token: Option<String>,
}

pub open spec fn source_value(src: FieldSource, info: LoginClientInfo, request: Seq<char>) -> Seq<
    char,
> {
    match src {
        FieldSource::Text(t) => t@,
        FieldSource::AkContextType => info.ak_context_type@,
        FieldSource::ClientAppName => info.client_app_name@,
        FieldSource::ClientBundleId => info.client_bundle_id@,
        FieldSource::MmeClientInfo => info.mme_client_info@,
        FieldSource::MmeClientInfoAkd => info.mme_client_info_akd@,
        FieldSource::AkdUserAgent => info.akd_user_agent@,
        FieldSource::BrowserUserAgent => info.browser_user_agent@,
        FieldSource::RequestId => request,
    }
}

/// An endpoint's header layout: the base headers it passes through, the fields it sets,
/// and whether the hardware headers of the client are appended.
pub struct HeaderProfile {
    pub allowed: Vec<&'static str>,
    pub fields: Vec<(&'static str, FieldSource)>,
    pub hardware: bool,
}

pub open spec fn is_allowed(allowed: Seq<&'static str>, k: Seq<char>) -> bool {
    exists|i: int| 0 <= i < allowed.len() && (#[trigger] allowed[i])@ == k
}

/// The base entries whose key is on the allow-list, in their order.
pub open spec fn keep_allowed(base: Seq<(Seq<char>, Seq<char>)>, allowed: Seq<&'static str>) -> Seq<
    (Seq<char>, Seq<char>),
>
    decreases base.len(),
{
    if base.len() == 0 {
        Seq::empty()
    } else {
        let r = keep_allowed(base.drop_last(), allowed);
        if is_allowed(allowed, base.last().0) {
            r.push(base.last())
        } else {
            r
        }
    }
}

pub open spec fn field_entries(
    fields: Seq<(&'static str, FieldSource)>,
    info: LoginClientInfo,
    request: Seq<char>,
) -> Seq<(Seq<char>, Seq<char>)> {
    fields.map_values(|f: (&'static str, FieldSource)| (f.0@, source_value(f.1, info, request)))
}

pub open spec fn hardware_entries(hardware: bool, info: LoginClientInfo) -> Seq<
    (Seq<char>, Seq<char>),
> {
    if hardware {
        info.hardware_headers@
    } else {
        Seq::empty()
    }
}

/// What a profile makes of base headers: the allowed base entries, then the profile's
/// fields, then the hardware headers where the profile takes them.
pub open spec fn project_spec(
    base: Seq<(Seq<char>, Seq<char>)>,
    allowed: Seq<&'static str>,
    fields: Seq<(&'static str, FieldSource)>,
    hardware: bool,
    info: LoginClientInfo,
    request: Seq<char>,
) -> Seq<(Seq<char>, Seq<char>)> {
    keep_allowed(base, allowed) + field_entries(fields, info, request) + hardware_entries(
        hardware,
        info,
    )
}

fn allowed_contains(allowed: &Vec<&'static str>, key: &String) -> (r: bool)
    ensures
        r == is_allowed(allowed@, key@),
{
    let mut i: usize = 0;
    while i < allowed.len()
        invariant
            i <= allowed@.len(),
            forall|j: int| 0 <= j < i ==> (#[trigger] allowed@[j])@ != key@,
        decreases allowed@.len() - i,
    {
        let a = allowed[i].to_owned();
        if a == *key {
            return true;
        }
        i = i + 1;
    }
    false
}

fn source_string(src: &FieldSource, info: &LoginClientInfo, request: &str) -> (r: String)
    ensures
        r@ == source_value(*src, *info, request@),
{
    match src {
        FieldSource::Text(t) => (*t).to_owned(),
        FieldSource::AkContextType => info.ak_context_type.clone(),
        FieldSource::ClientAppName => info.client_app_name.clone(),
        FieldSource::ClientBundleId => info.client_bundle_id.clone(),
        FieldSource::MmeClientInfo => info.mme_client_info.clone(),
        FieldSource::MmeClientInfoAkd => info.mme_client_info_akd.clone(),
        FieldSource::AkdUserAgent => info.akd_user_agent.clone(),
        FieldSource::BrowserUserAgent => info.browser_user_agent.clone(),
        FieldSource::RequestId => request.to_owned(),
    }
}

/// The entries of a profile applied to base headers, before repeated keys are dropped.
pub(crate) fn project_entries(base: &HeaderMap, profile: &HeaderProfile, info: &LoginClientInfo, request: &str) -> (r:
    HeaderMap)
    ensures
        r@ == project_spec(
            base@,
            profile.allowed@,
            profile.fields@,
            profile.hardware,
            *info,
            request@,
        ),
{
    let mut r = HeaderMap::new();
    let mut i: usize = 0;
    while i < base.entries.len()
        invariant
            i <= base@.len(),
            base@.len() == base.entries@.len(),
            r@ == keep_allowed(base@.subrange(0, i as int), profile.allowed@),
        decreases base.entries@.len() - i,
    {
        assert(base@.subrange(0, i as int) =~= base@.subrange(0, i + 1).drop_last());
        if allowed_contains(&profile.allowed, &base.entries[i].0) {
            r.insert(base.entries[i].0.clone(), base.entries[i].1.clone());
        }
        i = i + 1;
    }
    assert(base@.subrange(0, base@.len() as int) =~= base@);
    let ghost kept = r@;
    let mut j: usize = 0;
    while j < profile.fields.len()
        invariant
            j <= profile.fields@.len(),
            r@ == kept + field_entries(profile.fields@.subrange(0, j as int), *info, request@),
        decreases profile.fields@.len() - j,
    {
        let f = &profile.fields[j];
        let v = source_string(&f.1, info, request);
        r.insert(f.0.to_owned(), v);
        j = j + 1;
        assert(field_entries(profile.fields@.subrange(0, j as int), *info, request@) =~= field_entries(
            profile.fields@.subrange(0, j - 1),
            *info,
            request@,
        ).push((f.0@, v@)));
    }
    assert(profile.fields@.subrange(0, j as int) =~= profile.fields@);
    let ghost middle = r@;
    if profile.hardware {
        let hw = &info.hardware_headers;
        let mut k: usize = 0;
        while k < hw.entries.len()
            invariant
                k <= hw@.len(),
                hw@.len() == hw.entries@.len(),
                r@ == middle + hw@.subrange(0, k as int),
            decreases hw.entries@.len() - k,
        {
            r.insert(hw.entries[k].0.clone(), hw.entries[k].1.clone());
            k = k + 1;
            assert(r@ =~= middle + hw@.subrange(0, k as int));
        }
        assert(hw@.subrange(0, k as int) =~= hw@);
    }
    assert(r@ =~= project_spec(
        base@,
        profile.allowed@,
        profile.fields@,
        profile.hardware,
        *info,
        request@,
    ));
    r
}

/// The keys that a profile sets.
pub open spec fn field_keys(fields: Seq<(&'static str, FieldSource)>) -> Set<Seq<char>> {
    Set::new(|k: Seq<char>| exists|i: int| 0 <= i < fields.len() && (#[trigger] fields[i]).0@ == k)
}

pub proof fn lemma_key_set_concat<V>(a: Seq<(Seq<char>, V)>, b: Seq<(Seq<char>, V)>)
    ensures
        key_set(a + b) == key_set(a).union(key_set(b)),
{
    let c = a + b;
    assert forall|k: Seq<char>| key_set(c).contains(k) implies #[trigger] key_set(a).union(
        key_set(b),
    ).contains(k) by {
        let i = choose|i: int| 0 <= i < c.len() && #[trigger] c[i].0 == k;
        if i < a.len() {
            assert(a[i].0 == k);
        } else {
            assert(b[i - a.len()].0 == k);
        }
    }
    assert forall|k: Seq<char>| #[trigger] key_set(a).union(key_set(b)).contains(k) implies key_set(
        c,
    ).contains(k) by {
        if key_set(a).contains(k) {
            let i = choose|i: int| 0 <= i < a.len() && #[trigger] a[i].0 == k;
            assert(c[i].0 == k);
        } else {
            let i = choose|i: int| 0 <= i < b.len() && #[trigger] b[i].0 == k;
            assert(c[i + a.len()].0 == k);
        }
    }
    assert(key_set(c) =~= key_set(a).union(key_set(b)));
}

pub proof fn lemma_key_set_push<V>(a: Seq<(Seq<char>, V)>, e: (Seq<char>, V))
    ensures
        key_set(a.push(e)) == key_set(a).insert(e.0),
{
    lemma_key_set_concat(a, seq![e]);
    assert(a.push(e) =~= a + seq![e]);
    assert(key_set(seq![e]) =~= Set::empty().insert(e.0)) by {
        assert(seq![e][0].0 == e.0);
    }
    assert(key_set(a).union(Set::empty().insert(e.0)) =~= key_set(a).insert(e.0));
}

pub proof fn lemma_keep_allowed_keys(
    base: Seq<(Seq<char>, Seq<char>)>,
    allowed: Seq<&'static str>,
)
    ensures
        key_set(keep_allowed(base, allowed)) == key_set(base).filter(
            |k: Seq<char>| is_allowed(allowed, k),
        ),
    decreases base.len(),
{
    if base.len() == 0 {
        assert(key_set(base) =~= Set::empty());
        assert(key_set(keep_allowed(base, allowed)) =~= Set::empty());
        assert(key_set(base).filter(|k: Seq<char>| is_allowed(allowed, k)) =~= Set::empty());
    } else {
        let init = base.drop_last();
        let e = base.last();
        lemma_keep_allowed_keys(init, allowed);
        assert(base =~= init.push(e));
        lemma_key_set_push(init, e);
        if is_allowed(allowed, e.0) {
            lemma_key_set_push(keep_allowed(init, allowed), e);
        }
        assert(key_set(keep_allowed(base, allowed)) =~= key_set(base).filter(
            |k: Seq<char>| is_allowed(allowed, k),
        ));
    }
}

pub proof fn lemma_field_entries_keys(
    fields: Seq<(&'static str, FieldSource)>,
    info: LoginClientInfo,
    request: Seq<char>,
)
    ensures
        key_set(field_entries(fields, info, request)) == field_keys(fields),
{
    let f = field_entries(fields, info, request);
    assert forall|k: Seq<char>| key_set(f).contains(k) implies #[trigger] field_keys(
        fields,
    ).contains(k) by {
        let i = choose|i: int| 0 <= i < f.len() && #[trigger] f[i].0 == k;
        assert(fields[i].0@ == k);
    }
    assert forall|k: Seq<char>| #[trigger] field_keys(fields).contains(k) implies key_set(
        f,
    ).contains(k) by {
        let i = choose|i: int| 0 <= i < fields.len() && (#[trigger] fields[i]).0@ == k;
        assert(f[i].0 == k);
    }
    assert(key_set(f) =~= field_keys(fields));
}

/// The keys of a profile's output are exactly the allowed keys of the base headers, the
/// keys that the profile sets, and the hardware header keys where the profile takes them:
/// no other key appears, and none of the profile's own keys is missing.
pub proof fn lemma_profile_key_space(
    base: Seq<(Seq<char>, Seq<char>)>,
    allowed: Seq<&'static str>,
    fields: Seq<(&'static str, FieldSource)>,
    hardware: bool,
    info: LoginClientInfo,
    request: Seq<char>,
)
    ensures
        key_set(normalize(project_spec(base, allowed, fields, hardware, info, request))) == key_set(
            base,
        ).filter(|k: Seq<char>| is_allowed(allowed, k)).union(field_keys(fields)).union(
            key_set(hardware_entries(hardware, info)),
        ),
{
    lemma_normalize(project_spec(base, allowed, fields, hardware, info, request));
    lemma_keep_allowed_keys(base, allowed);
    lemma_field_entries_keys(fields, info, request);
    lemma_key_set_concat(keep_allowed(base, allowed), field_entries(fields, info, request));
    lemma_key_set_concat(
        keep_allowed(base, allowed) + field_entries(fields, info, request),
        hardware_entries(hardware, info),
    );
}

pub proof fn lemma_remove_key<V>(s: Seq<(Seq<char>, V)>, k: Seq<char>)
    ensures
        key_set(remove_key(s, k)) == key_set(s).remove(k),
        keys_unique(s) ==> keys_unique(remove_key(s, k)),
        forall|x: Seq<char>|
            x != k ==> #[trigger] lookup_any(remove_key(s, k), x) == lookup_any(s, x),
    decreases s.len(),
{
    if s.len() == 0 {
        assert(key_set(s) =~= Set::empty());
        assert(key_set(remove_key(s, k)) =~= Set::empty());
        assert(key_set(s).remove(k) =~= Set::empty());
    } else {
        let init = s.drop_last();
        let e = s.last();
        lemma_remove_key(init, k);
        assert(s =~= init.push(e));
        lemma_key_set_push(init, e);
        let r = remove_key(init, k);
        if e.0 != k {
            lemma_key_set_push(r, e);
            if keys_unique(s) {
                assert(!key_set(init).contains(e.0)) by {
                    if key_set(init).contains(e.0) {
                        let i = choose|i: int| 0 <= i < init.len() && #[trigger] init[i].0 == e.0;
                        assert(s[i].0 == s[s.len() - 1].0);
                    }
                }
                assert(keys_unique(init)) by {
                    assert forall|i: int, j: int| 0 <= i < j < init.len() implies #[trigger] init[i].0
                        != #[trigger] init[j].0 by {
                        assert(s[i] == init[i] && s[j] == init[j]);
                    }
                }
                assert(!key_set(r).contains(e.0));
                assert forall|i: int, j: int| 0 <= i < j < r.push(e).len() implies #[trigger] r.push(
                    e,
                )[i].0 != #[trigger] r.push(e)[j].0 by {
                    if j == r.len() {
                        assert(key_set(r).contains(r[i].0));
                    }
                }
            }
        } else {
            if keys_unique(s) {
                assert(keys_unique(init)) by {
                    assert forall|i: int, j: int| 0 <= i < j < init.len() implies #[trigger] init[i].0
                        != #[trigger] init[j].0 by {
                        assert(s[i] == init[i] && s[j] == init[j]);
                    }
                }
            }
        }
        assert(key_set(remove_key(s, k)) =~= key_set(s).remove(k));
        assert(s.drop_last() == init);
        assert forall|x: Seq<char>| x != k implies #[trigger] lookup_any(remove_key(s, k), x)
            == lookup_any(s, x) by {
            assert(lookup_any(r, x) == lookup_any(init, x));
            if e.0 != k {
                assert(remove_key(s, k) == r.push(e));
                assert(r.push(e).drop_last() =~= r);
                assert(r.push(e).last() == e);
            } else {
                assert(remove_key(s, k) == r);
                assert(lookup_any(s, x) == lookup_any(init, x));
            }
        }
    }
}

/// The value of a key by its last entry, for entries of any value type.
pub open spec fn lookup_any<V>(s: Seq<(Seq<char>, V)>, k: Seq<char>) -> Option<V>
    decreases s.len(),
{
    if s.len() == 0 {
        None
    } else if s.last().0 == k {
        Some(s.last().1)
    } else {
        lookup_any(s.drop_last(), k)
    }
}

/// Keeping each key once, with its last entry, leaves the keys and the value that each key
/// has, and no key occurs twice afterwards.
pub proof fn lemma_normalize<V>(s: Seq<(Seq<char>, V)>)
    ensures
        keys_unique(normalize(s)),
        key_set(normalize(s)) == key_set(s),
        forall|k: Seq<char>| #[trigger] lookup_any(normalize(s), k) == lookup_any(s, k),
    decreases s.len(),
{
    if s.len() == 0 {
        assert(key_set(normalize(s)) =~= key_set(s));
    } else {
        let init = s.drop_last();
        let e = s.last();
        lemma_normalize(init);
        let n = normalize(init);
        lemma_remove_key(n, e.0);
        let r = remove_key(n, e.0);
        lemma_key_set_push(r, e);
        lemma_key_set_push(init, e);
        assert(s =~= init.push(e));
        assert(!key_set(r).contains(e.0));
        assert forall|i: int, j: int| 0 <= i < j < r.push(e).len() implies #[trigger] r.push(e)[i].0
            != #[trigger] r.push(e)[j].0 by {
            if j == r.len() {
                assert(key_set(r).contains(r[i].0));
            }
        }
        assert(key_set(normalize(s)) =~= key_set(s));
        assert forall|k: Seq<char>| #[trigger] lookup_any(normalize(s), k) == lookup_any(s, k) by {
            assert(normalize(s) == r.push(e));
            assert(r.push(e).drop_last() =~= r);
            if k != e.0 {
                assert(lookup_any(r, k) == lookup_any(n, k));
            }
        }
    }
}

/// Applies a profile to base headers: the allowed base entries, then the profile's fields,
/// then the hardware headers where the profile takes them; of entries with the same key only
/// the last is kept, so no key occurs twice.
pub fn project(base: &HeaderMap, profile: &HeaderProfile, info: &LoginClientInfo, request: &str) -> (r:
    HeaderMap)
    ensures
        r@ == normalize(
            project_spec(base@, profile.allowed@, profile.fields@, profile.hardware, *info, request@),
        ),
        keys_unique(r@),
{
    let all = project_entries(base, profile, info, request);
    proof {
        lemma_normalize(all@);
    }
    all.normalized()
}

} // verus!
