use vstd::prelude::*;

use crate::cass_error::CassError;

verus! {

/// Consistency level of a query.
#[allow(missing_docs)]
#[derive(Clone, Copy, Debug, PartialEq, Eq, Structural)]
pub enum Consistency {
    Any,
    One,
    Two,
    Three,
    Quorum,
    All,
    LocalQuorum,
    EachQuorum,
    LocalOne,
    Serial,
    LocalSerial,
}

/// Serial consistency level, used by lightweight transactions.
#[allow(missing_docs)]
#[derive(Clone, Copy, Debug, PartialEq, Eq, Structural)]
pub enum SerialConsistency {
    Serial,
    LocalSerial,
}

/// Consistency value as callers of the flat call surface name it, including
/// the placeholder `UNKNOWN`, which no profile accepts.
#[allow(non_camel_case_types, missing_docs)]
#[derive(Clone, Copy, Debug, PartialEq, Eq, Structural)]
pub enum CassConsistency {
    CASS_CONSISTENCY_UNKNOWN,
    CASS_CONSISTENCY_ANY,
    CASS_CONSISTENCY_ONE,
    CASS_CONSISTENCY_TWO,
    CASS_CONSISTENCY_THREE,
    CASS_CONSISTENCY_QUORUM,
    CASS_CONSISTENCY_ALL,
    CASS_CONSISTENCY_LOCAL_QUORUM,
    CASS_CONSISTENCY_EACH_QUORUM,
    CASS_CONSISTENCY_SERIAL,
    CASS_CONSISTENCY_LOCAL_SERIAL,
    CASS_CONSISTENCY_LOCAL_ONE,
}

/// The consistency level a `CassConsistency` stands for, or `None` for the
/// placeholder value.
pub open spec fn spec_consistency_of(c: CassConsistency) -> Option<Consistency> {
    match c {
        CassConsistency::CASS_CONSISTENCY_UNKNOWN => None,
        CassConsistency::CASS_CONSISTENCY_ANY => Some(Consistency::Any),
        CassConsistency::CASS_CONSISTENCY_ONE => Some(Consistency::One),
        CassConsistency::CASS_CONSISTENCY_TWO => Some(Consistency::Two),
        CassConsistency::CASS_CONSISTENCY_THREE => Some(Consistency::Three),
        CassConsistency::CASS_CONSISTENCY_QUORUM => Some(Consistency::Quorum),
        CassConsistency::CASS_CONSISTENCY_ALL => Some(Consistency::All),
        CassConsistency::CASS_CONSISTENCY_LOCAL_QUORUM => Some(Consistency::LocalQuorum),
        CassConsistency::CASS_CONSISTENCY_EACH_QUORUM => Some(Consistency::EachQuorum),
        CassConsistency::CASS_CONSISTENCY_SERIAL => Some(Consistency::Serial),
        CassConsistency::CASS_CONSISTENCY_LOCAL_SERIAL => Some(Consistency::LocalSerial),
        CassConsistency::CASS_CONSISTENCY_LOCAL_ONE => Some(Consistency::LocalOne),
    }
}

/// Exec twin of [`spec_consistency_of`].
pub fn consistency_of(c: CassConsistency) -> (r: Option<Consistency>)
    ensures
        r == spec_consistency_of(c),
{
    match c {
        CassConsistency::CASS_CONSISTENCY_UNKNOWN => None,
        CassConsistency::CASS_CONSISTENCY_ANY => Some(Consistency::Any),
        CassConsistency::CASS_CONSISTENCY_ONE => Some(Consistency::One),
        CassConsistency::CASS_CONSISTENCY_TWO => Some(Consistency::Two),
        CassConsistency::CASS_CONSISTENCY_THREE => Some(Consistency::Three),
        CassConsistency::CASS_CONSISTENCY_QUORUM => Some(Consistency::Quorum),
        CassConsistency::CASS_CONSISTENCY_ALL => Some(Consistency::All),
        CassConsistency::CASS_CONSISTENCY_LOCAL_QUORUM => Some(Consistency::LocalQuorum),
        CassConsistency::CASS_CONSISTENCY_EACH_QUORUM => Some(Consistency::EachQuorum),
        CassConsistency::CASS_CONSISTENCY_SERIAL => Some(Consistency::Serial),
        CassConsistency::CASS_CONSISTENCY_LOCAL_SERIAL => Some(Consistency::LocalSerial),
        CassConsistency::CASS_CONSISTENCY_LOCAL_ONE => Some(Consistency::LocalOne),
    }
}

/// The serial consistency level a `CassConsistency` stands for; only the two
/// serial values qualify.
pub open spec fn spec_serial_consistency_of(c: CassConsistency) -> Option<SerialConsistency> {
    match c {
        CassConsistency::CASS_CONSISTENCY_SERIAL => Some(SerialConsistency::Serial),
        CassConsistency::CASS_CONSISTENCY_LOCAL_SERIAL => Some(SerialConsistency::LocalSerial),
        _ => None,
    }
}

/// Exec twin of [`spec_serial_consistency_of`].
pub fn serial_consistency_of(c: CassConsistency) -> (r: Option<SerialConsistency>)
    ensures
        r == spec_serial_consistency_of(c),
{
    match c {
        CassConsistency::CASS_CONSISTENCY_SERIAL => Some(SerialConsistency::Serial),
        CassConsistency::CASS_CONSISTENCY_LOCAL_SERIAL => Some(SerialConsistency::LocalSerial),
        _ => None,
    }
}

/// Retry policy chosen for a profile.
#[allow(missing_docs)]
#[derive(Clone, Copy, Debug, PartialEq, Eq, Structural)]
pub enum CassRetryPolicy {
    DefaultRetryPolicy,
    FallthroughRetryPolicy,
    DowngradingConsistencyRetryPolicy,
}

/// Speculative-execution policy that retries at a constant delay.
#[derive(Clone, Copy, Debug, PartialEq, Eq, Structural)]
pub struct SimpleSpeculativeExecutionPolicy {
    pub max_retry_count: u64,
    pub retry_interval_ms: u64,
}

/// A bundle of per-query defaults. Every attribute is independent: setting
/// one never resets another. `None` means the attribute was never set and the
/// driver's own default applies.
#[derive(Clone, Copy, Debug, PartialEq)]
pub struct CassExecProfile {
    pub consistency: Option<Consistency>,
    pub serial_consistency: Option<SerialConsistency>,
    pub retry_policy: Option<CassRetryPolicy>,
    pub speculative_execution_policy: Option<SimpleSpeculativeExecutionPolicy>,
}

/// A fresh profile with no attribute set.
pub fn cass_execution_profile_new() -> (r: CassExecProfile)
    ensures
        r.consistency is None,
        r.serial_consistency is None,
        r.retry_policy is None,
        r.speculative_execution_policy is None,
{
    CassExecProfile {
        consistency: None,
        serial_consistency: None,
        retry_policy: None,
        speculative_execution_policy: None,
    }
}

/// A validated profile name: the constructor rejects the empty string, so an
/// invalid name can never enter a registry.
pub struct ExecProfileName {
    name: String,
}

impl View for ExecProfileName {
    type V = Seq<char>;

    closed spec fn view(&self) -> Seq<char> {
        self.name@
    }
}

impl ExecProfileName {
    /// The name is never empty.
    pub closed spec fn wf(&self) -> bool {
        self.name@.len() > 0
    }

    /// Validates `name`: the empty string is rejected with `BAD_PARAMS`.
    pub fn new(name: String) -> (r: Result<ExecProfileName, CassError>)
        ensures
            r matches Ok(p) ==> p.wf() && p@ == name@ && name@.len() > 0,
            r matches Err(e) ==> e == CassError::CASS_ERROR_LIB_BAD_PARAMS && name@.len() == 0,
    {
        if name.as_str().is_empty() {
            Err(CassError::CASS_ERROR_LIB_BAD_PARAMS)
        } else {
            Ok(ExecProfileName { name })
        }
    }
}

/// The map an entry sequence stands for: later entries win, though a
/// well-formed registry never repeats a key.
pub closed spec fn assoc_map(s: Seq<(ExecProfileName, CassExecProfile)>) -> Map<
    Seq<char>,
    CassExecProfile,
>
    decreases s.len(),
{
    if s.len() == 0 {
        Map::empty()
    } else {
        assoc_map(s.drop_last()).insert(s.last().0@, s.last().1)
    }
}

/// A key is in the map exactly when some entry carries it.
proof fn lemma_assoc_map_contains(s: Seq<(ExecProfileName, CassExecProfile)>, k: Seq<char>)
    ensures
        assoc_map(s).contains_key(k) <==> exists|i: int| 0 <= i < s.len() && s[i].0@ == k,
    decreases s.len(),
{
    if s.len() > 0 {
        lemma_assoc_map_contains(s.drop_last(), k);
        if s.last().0@ != k && assoc_map(s).contains_key(k) {
            let i = choose|i: int| 0 <= i < s.drop_last().len() && s.drop_last()[i].0@ == k;
            assert(s[i].0@ == k);
        }
        if exists|i: int| 0 <= i < s.len() && s[i].0@ == k {
            let i = choose|i: int| 0 <= i < s.len() && s[i].0@ == k;
            if i < s.len() - 1 {
                assert(s.drop_last()[i].0@ == k);
            }
        }
    }
}

/// With distinct keys, the entry carrying a key decides its value.
proof fn lemma_assoc_map_index(s: Seq<(ExecProfileName, CassExecProfile)>, i: int)
    requires
        forall|x: int, y: int|
            0 <= x < y < s.len() ==> s[x].0@ != s[y].0@,
        0 <= i < s.len(),
    ensures
        assoc_map(s).contains_key(s[i].0@),
        assoc_map(s)[s[i].0@] == s[i].1,
    decreases s.len(),
{
    lemma_assoc_map_contains(s, s[i].0@);
    if i < s.len() - 1 {
        assert(s.drop_last()[i] == s[i]);
        lemma_assoc_map_index(s.drop_last(), i);
        assert(s.last().0@ != s[i].0@);
    }
}

/// With distinct keys the map has exactly one entry per element.
proof fn lemma_assoc_map_dom_len(s: Seq<(ExecProfileName, CassExecProfile)>)
    requires
        forall|x: int, y: int|
            0 <= x < y < s.len() ==> s[x].0@ != s[y].0@,
    ensures
        assoc_map(s).dom().finite(),
        assoc_map(s).dom().len() == s.len(),
    decreases s.len(),
{
    if s.len() > 0 {
        lemma_assoc_map_dom_len(s.drop_last());
        lemma_assoc_map_contains(s.drop_last(), s.last().0@);
        assert(forall|i: int|
            0 <= i < s.drop_last().len() ==> s.drop_last()[i].0@ != s.last().0@);
        assert(!assoc_map(s.drop_last()).contains_key(s.last().0@));
    }
}

/// Removing the entry that carries a key removes the key.
proof fn lemma_assoc_map_remove(s: Seq<(ExecProfileName, CassExecProfile)>, i: int)
    requires
        forall|x: int, y: int|
            0 <= x < y < s.len() ==> s[x].0@ != s[y].0@,
        0 <= i < s.len(),
    ensures
        assoc_map(s.remove(i)) == assoc_map(s).remove(s[i].0@),
    decreases s.len(),
{
    if i == s.len() - 1 {
        assert(s.remove(i) =~= s.drop_last());
        lemma_assoc_map_contains(s.drop_last(), s[i].0@);
        assert(!assoc_map(s.drop_last()).contains_key(s[i].0@));
        assert(assoc_map(s.drop_last()).insert(s.last().0@, s.last().1).remove(s[i].0@)
            =~= assoc_map(s.drop_last()));
    } else {
        assert(s.remove(i).drop_last() =~= s.drop_last().remove(i));
        assert(s.remove(i).last() == s.last());
        lemma_assoc_map_remove(s.drop_last(), i);
        assert(s.drop_last()[i] == s[i]);
        assert(s.last().0@ != s[i].0@);
        assert(assoc_map(s.drop_last()).remove(s[i].0@).insert(s.last().0@, s.last().1)
            =~= assoc_map(s.drop_last()).insert(s.last().0@, s.last().1).remove(s[i].0@));
    }
}

/// The position of `name` among the entries, if some entry carries it.
fn position_of(entries: &Vec<(ExecProfileName, CassExecProfile)>, name: &str) -> (r: Option<
    usize,
>)
    ensures
        r matches Some(i) ==> i < entries@.len() && entries@[i as int].0@ == name@,
        r is None ==> forall|i: int| 0 <= i < entries@.len() ==> entries@[i].0@ != name@,
{
    let needle: String = name.to_owned();
    let mut i: usize = 0;
    while i < entries.len()
        invariant
            i <= entries@.len(),
            needle@ == name@,
            forall|j: int| 0 <= j < i ==> entries@[j].0@ != name@,
        decreases entries@.len() - i,
    {
        if entries[i].0.name == needle {
            return Some(i);
        }
        i += 1;
    }
    None
}

/// A registry of named execution profiles: a map from validated names to the
/// profile snapshot taken when the name was registered.
pub struct ExecProfileMap {
    entries: Vec<(ExecProfileName, CassExecProfile)>,
}

impl View for ExecProfileMap {
    type V = Map<Seq<char>, CassExecProfile>;

    closed spec fn view(&self) -> Map<Seq<char>, CassExecProfile> {
        assoc_map(self.entries@)
    }
}

impl ExecProfileMap {
    /// No two entries carry the same name.
    #[verifier::type_invariant]
    closed spec fn wf(&self) -> bool {
        forall|x: int, y: int|
            0 <= x < y < self.entries@.len() ==> self.entries@[x].0@ != self.entries@[y].0@
    }

    /// An empty registry.
    pub fn new() -> (r: ExecProfileMap)
        ensures
            r@ == Map::<Seq<char>, CassExecProfile>::empty(),
    {
        ExecProfileMap { entries: Vec::new() }
    }

    /// How many names are registered.
    pub fn len(&self) -> (r: usize)
        ensures
            r == self@.dom().len(),
    {
        proof {
            use_type_invariant(&*self);
            lemma_assoc_map_dom_len(self.entries@);
        }
        self.entries.len()
    }

    /// The snapshot registered under `name`, if any.
    pub fn get(&self, name: &str) -> (r: Option<CassExecProfile>)
        ensures
            r matches Some(p) ==> self@.contains_key(name@) && p == self@[name@],
            r is None ==> !self@.contains_key(name@),
    {
        proof {
            use_type_invariant(&*self);
            lemma_assoc_map_contains(self.entries@, name@);
        }
        match position_of(&self.entries, name) {
            Some(i) => {
                proof {
                    use_type_invariant(&*self);
                    lemma_assoc_map_index(self.entries@, i as int);
                }
                Some(self.entries[i].1)
            },
            None => None,
        }
    }

    /// Registers `profile` under `name`; the last registration for a name
    /// wins, and overwriting never grows the registry.
    pub fn insert(&mut self, name: ExecProfileName, profile: CassExecProfile)
        ensures
            final(self)@ == old(self)@.insert(name@, profile),
    {
        proof {
            use_type_invariant(&*self);
        }
        let ghost pre = self.entries@;
        let mut v: Vec<(ExecProfileName, CassExecProfile)> = Vec::new();
        core::mem::swap(&mut self.entries, &mut v);
        match position_of(&v, name.name.as_str()) {
            Some(i) => {
                proof {
                    lemma_assoc_map_remove(pre, i as int);
                }
                v.remove(i);
                proof {
                    assert(forall|x: int| 0 <= x < v@.len() ==> v@[x] == if x < i {
                        pre[x]
                    } else {
                        pre[x + 1]
                    });
                    assert(forall|x: int, y: int|
                        0 <= x < y < v@.len() ==> v@[x].0@ != v@[y].0@);
                    assert(forall|x: int| 0 <= x < v@.len() ==> v@[x].0@ != name@);
                }
                let ghost mid = v@;
                v.push((name, profile));
                proof {
                    assert(v@.drop_last() =~= mid);
                    assert(assoc_map(pre).remove(pre[i as int].0@).insert(name@, profile)
                        =~= assoc_map(pre).insert(name@, profile));
                    assert(forall|x: int| 0 <= x < mid.len() ==> v@[x] == mid[x]);
                }
            },
            None => {
                v.push((name, profile));
                proof {
                    assert(v@.drop_last() =~= pre);
                    assert(forall|x: int| 0 <= x < pre.len() ==> v@[x] == pre[x]);
                }
            },
        }
        core::mem::swap(&mut self.entries, &mut v);
    }
}

/// Registering one name twice keeps the second snapshot and only the second:
/// the registry after both registrations equals the registry with only the
/// second, retrieval under the name yields the second profile, and the
/// registry's size is what it was after the first registration.
pub proof fn lemma_register_overwrite(
    m: Map<Seq<char>, CassExecProfile>,
    name: Seq<char>,
    p1: CassExecProfile,
    p2: CassExecProfile,
)
    ensures
        m.insert(name, p1).insert(name, p2) == m.insert(name, p2),
        m.insert(name, p1).insert(name, p2)[name] == p2,
        m.insert(name, p1).insert(name, p2).dom().len() == m.insert(name, p1).dom().len(),
{
    assert(m.insert(name, p1).insert(name, p2) =~= m.insert(name, p2));
    assert(m.insert(name, p1).insert(name, p2).dom() =~= m.insert(name, p1).dom());
}

} // verus!
