//! The registry cache: one snapshot of all remote instances, indexed by
//! case-normalised application name and by virtual address.
use crate::rest::structures::{flatten_applications, AllApplications, Instance, InstanceView};
use crate::EurekaError;
use itertools::Itertools;
use vstd::multiset::Multiset;
use vstd::prelude::*;
use vstd::seq_lib::lemma_multiset_commutative;

verus! {

/// What `str::to_uppercase` makes of a string.
pub uninterp spec fn upper_of(s: Seq<char>) -> Seq<char>;

/// Relies on `str::to_uppercase`: the result depends on the characters alone,
/// and the empty string stays empty.
#[verifier::external_body]
fn to_uppercase(s: &str) -> (r: String)
    ensures
        r@ == upper_of(s@),
        s@.len() == 0 ==> r@.len() == 0,
{
    s.to_uppercase()
}

/// A list of keyed groups, as the cache stores an index.
pub type Groups = Vec<(String, Vec<Instance>)>;

/// No two groups share a key.
pub open spec fn distinct_keys(groups: Seq<(String, Vec<Instance>)>) -> bool {
    forall|g: int, h: int|
        #![trigger groups[g], groups[h]]
        0 <= g < groups.len() && 0 <= h < groups.len() && g != h ==> groups[g].0@ != groups[h].0@
}

/// Some group has key `k`.
pub open spec fn has_group(groups: Seq<(String, Vec<Instance>)>, k: Seq<char>) -> bool {
    exists|g: int| 0 <= g < groups.len() && groups[g].0@ == k
}

/// The values paired with key `k`, in the order in which they come.
pub open spec fn values_for_key(pairs: Seq<(String, Instance)>, k: Seq<char>) -> Seq<Instance>
    decreases pairs.len(),
{
    if pairs.len() == 0 {
        Seq::empty()
    } else {
        let rest = values_for_key(pairs.drop_last(), k);
        if pairs.last().0@ == k {
            rest.push(pairs.last().1)
        } else {
            rest
        }
    }
}

/// Relies on itertools' `Itertools::into_group_map`: it makes one entry per
/// distinct key and pushes each value onto its key's entry in the order the
/// pairs come; the entries are then taken out of the map in no stated order.
#[verifier::external_body]
fn into_groups(pairs: Vec<(String, Instance)>) -> (r: Groups)
    ensures
        forall|g: int| 0 <= g < r.len() ==> r@[g].1@ == values_for_key(pairs@, r@[g].0@),
        distinct_keys(r@),
        forall|i: int| 0 <= i < pairs.len() ==> has_group(r@, (#[trigger] pairs@[i]).0@),
{
    pairs.into_iter().into_group_map().into_iter().collect()
}

pub open spec fn views(s: Seq<Instance>) -> Seq<InstanceView> {
    s.map_values(|i: Instance| i@)
}

/// The key under which the application index files an instance.
pub open spec fn app_key() -> spec_fn(InstanceView) -> Seq<char> {
    |i: InstanceView| upper_of(i.app)
}

/// The key under which the virtual-address index files an instance.
pub open spec fn vip_key() -> spec_fn(InstanceView) -> Seq<char> {
    |i: InstanceView| i.vip_address
}

/// The instances of `s` whose key is `k`, in their order in `s`.
pub open spec fn having_key(
    s: Seq<InstanceView>,
    key: spec_fn(InstanceView) -> Seq<char>,
    k: Seq<char>,
) -> Seq<InstanceView>
    decreases s.len(),
{
    if s.len() == 0 {
        Seq::empty()
    } else {
        let rest = having_key(s.drop_last(), key, k);
        if key(s.last()) == k {
            rest.push(s.last())
        } else {
            rest
        }
    }
}

/// `groups` is the grouping of `s` by `key`: distinct keys, each group holding
/// exactly the instances of its key in their order in `s`, and every instance
/// of `s` filed under some group.
pub open spec fn groups_match(
    groups: Seq<(String, Vec<Instance>)>,
    s: Seq<InstanceView>,
    key: spec_fn(InstanceView) -> Seq<char>,
) -> bool {
    &&& distinct_keys(groups)
    &&& forall|g: int|
        0 <= g < groups.len() ==> #[trigger] views(groups[g].1@) == having_key(s, key, groups[g].0@)
    &&& forall|i: int| 0 <= i < s.len() ==> has_group(groups, key(#[trigger] s[i]))
}

/// The instances filed under `k`, or none when no group has that key.
pub open spec fn group_lookup(groups: Seq<(String, Vec<Instance>)>, k: Seq<char>) -> Seq<InstanceView> {
    if has_group(groups, k) {
        let g = choose|g: int| 0 <= g < groups.len() && groups[g].0@ == k;
        views(groups[g].1@)
    } else {
        Seq::empty()
    }
}

/// The instances of all groups, group after group.
pub open spec fn flatten_groups(groups: Seq<(String, Vec<Instance>)>) -> Seq<InstanceView>
    decreases groups.len(),
{
    if groups.len() == 0 {
        Seq::empty()
    } else {
        flatten_groups(groups.drop_last()) + views(groups.last().1@)
    }
}

proof fn lemma_values_for_key_views(
    pairs: Seq<(String, Instance)>,
    s: Seq<InstanceView>,
    key: spec_fn(InstanceView) -> Seq<char>,
    k: Seq<char>,
)
    requires
        pairs.len() == s.len(),
        forall|i: int| 0 <= i < s.len() ==> pairs[i].1@ == s[i] && pairs[i].0@ == key(s[i]),
    ensures
        views(values_for_key(pairs, k)) == having_key(s, key, k),
    decreases pairs.len(),
{
    if pairs.len() > 0 {
        lemma_values_for_key_views(pairs.drop_last(), s.drop_last(), key, k);
        let rest = values_for_key(pairs.drop_last(), k);
        assert(views(rest.push(pairs.last().1)) =~= views(rest).push(pairs.last().1@));
    } else {
        assert(views(values_for_key(pairs, k)) =~= Seq::empty());
    }
}

proof fn lemma_having_key_absent(s: Seq<InstanceView>, key: spec_fn(InstanceView) -> Seq<char>, k: Seq<char>)
    requires
        forall|i: int| 0 <= i < s.len() ==> key(s[i]) != k,
    ensures
        having_key(s, key, k) == Seq::<InstanceView>::empty(),
    decreases s.len(),
{
    if s.len() > 0 {
        lemma_having_key_absent(s.drop_last(), key, k);
    }
}

/// What a lookup in a grouping of `s` returns is the selection of `s` by key.
proof fn lemma_lookup_is_selection(
    groups: Seq<(String, Vec<Instance>)>,
    s: Seq<InstanceView>,
    key: spec_fn(InstanceView) -> Seq<char>,
    k: Seq<char>,
)
    requires
        groups_match(groups, s, key),
    ensures
        group_lookup(groups, k) == having_key(s, key, k),
{
    if !has_group(groups, k) {
        assert forall|i: int| 0 <= i < s.len() implies key(s[i]) != k by {
            let _ = s[i];
        }
        lemma_having_key_absent(s, key, k);
    } else {
        let g = choose|g: int| 0 <= g < groups.len() && groups[g].0@ == k;
        assert(views(groups[g].1@) == having_key(s, key, groups[g].0@));
    }
}

/// Groups `pairs` by key and checks the grouping against the instances whose
/// keys the pairs carry.
fn group_pairs(
    pairs: Vec<(String, Instance)>,
    Ghost(s): Ghost<Seq<InstanceView>>,
    Ghost(key): Ghost<spec_fn(InstanceView) -> Seq<char>>,
) -> (r: Groups)
    requires
        pairs.len() == s.len(),
        forall|i: int| 0 <= i < s.len() ==> pairs@[i].1@ == s[i] && pairs@[i].0@ == key(s[i]),
    ensures
        groups_match(r@, s, key),
{
    let ghost p = pairs@;
    let r = into_groups(pairs);
    proof {
        assert forall|g: int| 0 <= g < r.len() implies #[trigger] views(r@[g].1@) == having_key(
            s,
            key,
            r@[g].0@,
        ) by {
            lemma_values_for_key_views(p, s, key, r@[g].0@);
        }
        assert forall|i: int| 0 <= i < s.len() implies has_group(r@, key(#[trigger] s[i])) by {
            assert(p[i].0@ == key(s[i]));
        }
    }
    r
}

/// Groups instances by case-normalised application name, keeping the order of
/// the instances within each group.
pub fn group_instances_by_app(instances: Vec<Instance>) -> (r: Groups)
    ensures
        groups_match(r@, views(instances@), app_key()),
{
    let mut pairs: Vec<(String, Instance)> = Vec::new();
    let mut i: usize = 0;
    while i < instances.len()
        invariant
            i <= instances.len(),
            pairs.len() == i,
            forall|j: int|
                0 <= j < i ==> pairs@[j].1@ == instances@[j]@ && pairs@[j].0@ == upper_of(
                    instances@[j].app@,
                ),
        decreases instances.len() - i,
    {
        let key = to_uppercase(instances[i].app.as_str());
        pairs.push((key, instances[i].clone()));
        i = i + 1;
    }
    group_pairs(pairs, Ghost(views(instances@)), Ghost(app_key()))
}

/// Groups instances by virtual address.
fn group_instances_by_vip(instances: &Vec<Instance>) -> (r: Groups)
    ensures
        groups_match(r@, views(instances@), vip_key()),
{
    let mut pairs: Vec<(String, Instance)> = Vec::new();
    let mut i: usize = 0;
    while i < instances.len()
        invariant
            i <= instances.len(),
            pairs.len() == i,
            forall|j: int|
                0 <= j < i ==> pairs@[j].1@ == instances@[j]@ && pairs@[j].0@
                    == instances@[j].vip_address@,
        decreases instances.len() - i,
    {
        pairs.push((instances[i].vip_address.clone(), instances[i].clone()));
        i = i + 1;
    }
    group_pairs(pairs, Ghost(views(instances@)), Ghost(vip_key()))
}

/// Copies of the instances filed under `key`; none when no group has it.
fn lookup(groups: &Groups, key: &String) -> (r: Vec<Instance>)
    requires
        distinct_keys(groups@),
    ensures
        views(r@) == group_lookup(groups@, key@),
{
    let mut g: usize = 0;
    while g < groups.len()
        invariant
            g <= groups.len(),
            forall|h: int| 0 <= h < g ==> groups@[h].0@ != key@,
            distinct_keys(groups@),
        decreases groups.len() - g,
    {
        if groups[g].0 == *key {
            let found = groups[g].1.clone();
            proof {
                assert(0 <= g < groups.len() && groups@[g as int].0@ == key@);
                let c = choose|c: int| 0 <= c < groups.len() && groups@[c].0@ == key@;
                assert(c == g) by {
                    if c != g {
                        assert(groups@[c].0@ != groups@[g as int].0@);
                    }
                }
                assert(views(found@) =~= views(groups@[g as int].1@));
            }
            return found;
        }
        g = g + 1;
    }
    Vec::new()
}

proof fn lemma_having_key_count(
    s: Seq<InstanceView>,
    key: spec_fn(InstanceView) -> Seq<char>,
    k: Seq<char>,
    x: InstanceView,
)
    ensures
        having_key(s, key, k).to_multiset().count(x) == (if key(x) == k {
            s.to_multiset().count(x)
        } else {
            0
        }),
    decreases s.len(),
{
    broadcast use vstd::seq_lib::group_to_multiset_ensures, vstd::multiset::group_multiset_axioms;

    if s.len() == 0 {
        assert(having_key(s, key, k) =~= Seq::empty());
    } else {
        lemma_having_key_count(s.drop_last(), key, k, x);
        assert(s =~= s.drop_last().push(s.last()));
    }
}

proof fn lemma_flatten_count(
    groups: Seq<(String, Vec<Instance>)>,
    s: Seq<InstanceView>,
    key: spec_fn(InstanceView) -> Seq<char>,
    x: InstanceView,
)
    requires
        distinct_keys(groups),
        forall|g: int|
            0 <= g < groups.len() ==> #[trigger] views(groups[g].1@) == having_key(s, key, groups[g].0@),
    ensures
        flatten_groups(groups).to_multiset().count(x) == (if has_group(groups, key(x)) {
            s.to_multiset().count(x)
        } else {
            0
        }),
    decreases groups.len(),
{
    broadcast use vstd::multiset::group_multiset_axioms;

    if groups.len() == 0 {
        assert(flatten_groups(groups) =~= Seq::empty());
        assert(Seq::<InstanceView>::empty().to_multiset() =~= Multiset::empty()) by {
            broadcast use vstd::seq_lib::group_to_multiset_ensures;
        }
    } else {
        let front = groups.drop_last();
        let last = groups.last();
        assert(distinct_keys(front)) by {
            assert forall|g: int, h: int|
                #![trigger front[g], front[h]]
                0 <= g < front.len() && 0 <= h < front.len() && g != h implies front[g].0@
                != front[h].0@ by {
                assert(front[g] == groups[g] && front[h] == groups[h]);
            }
        }
        assert forall|g: int| 0 <= g < front.len() implies #[trigger] views(front[g].1@)
            == having_key(s, key, front[g].0@) by {
            assert(front[g] == groups[g]);
        }
        lemma_flatten_count(front, s, key, x);
        lemma_multiset_commutative(flatten_groups(front), views(last.1@));
        assert(flatten_groups(groups) == flatten_groups(front) + views(last.1@));
        assert(flatten_groups(groups).to_multiset().count(x) == flatten_groups(front).to_multiset().count(x)
            + views(last.1@).to_multiset().count(x));
        assert(views(groups[groups.len() - 1].1@) == having_key(s, key, last.0@));
        lemma_having_key_count(s, key, last.0@, x);
        if last.0@ == key(x) {
            assert(has_group(groups, key(x)));
            if has_group(front, key(x)) {
                let g = choose|g: int| 0 <= g < front.len() && front[g].0@ == key(x);
                assert(groups[g] == front[g]);
                assert(groups[g].0@ != groups[groups.len() - 1].0@);
            }
        } else {
            if has_group(groups, key(x)) {
                let g = choose|g: int| 0 <= g < groups.len() && groups[g].0@ == key(x);
                assert(g != groups.len() - 1);
                assert(front[g] == groups[g]);
            }
            if has_group(front, key(x)) {
                let g = choose|g: int| 0 <= g < front.len() && front[g].0@ == key(x);
                assert(groups[g] == front[g]);
            }
        }
    }
}

/// Grouping loses and adds nothing: the instances of all groups, taken group
/// after group, are the grouped instances, each as often as in the list (and,
/// by `groups_match`, in their order within each group).
pub proof fn lemma_grouping_keeps_instances(
    s: Seq<InstanceView>,
    groups: Seq<(String, Vec<Instance>)>,
    key: spec_fn(InstanceView) -> Seq<char>,
)
    requires
        groups_match(groups, s, key),
    ensures
        flatten_groups(groups).to_multiset() == s.to_multiset(),
{
    broadcast use vstd::seq_lib::group_to_multiset_ensures;

    assert forall|x: InstanceView| #[trigger]
        flatten_groups(groups).to_multiset().count(x) == s.to_multiset().count(x) by {
        lemma_flatten_count(groups, s, key, x);
        if s.to_multiset().count(x) > 0 {
            assert(s.contains(x));
            let i = choose|i: int| 0 <= i < s.len() && s[i] == x;
            assert(has_group(groups, key(s[i])));
        }
    }
    assert(flatten_groups(groups).to_multiset() =~= s.to_multiset());
}

/// Grouping the same instances twice gives the same index: every lookup in
/// the one grouping answers as in the other.
pub proof fn lemma_grouping_is_stable(
    s: Seq<InstanceView>,
    first: Seq<(String, Vec<Instance>)>,
    second: Seq<(String, Vec<Instance>)>,
    key: spec_fn(InstanceView) -> Seq<char>,
    k: Seq<char>,
)
    requires
        groups_match(first, s, key),
        groups_match(second, s, key),
    ensures
        group_lookup(first, k) == group_lookup(second, k),
{
    lemma_lookup_is_selection(first, s, key, k);
    lemma_lookup_is_selection(second, s, key, k);
}

/// One snapshot of the registry: both indexes are built from one fetched list
/// of instances and replaced together.
pub struct EurekaCache {
    app: Groups,
    vip: Groups,
    source: Ghost<Seq<InstanceView>>,
}

impl EurekaCache {
    /// Both indexes are groupings of the one list this snapshot was built from.
    pub closed spec fn wf(&self) -> bool {
        &&& groups_match(self.app@, self.source@, app_key())
        &&& groups_match(self.vip@, self.source@, vip_key())
    }

    /// The fetched instances this snapshot was built from.
    pub closed spec fn source(&self) -> Seq<InstanceView> {
        self.source@
    }

    /// The application index.
    pub closed spec fn app_groups(&self) -> Seq<(String, Vec<Instance>)> {
        self.app@
    }

    /// The virtual-address index.
    pub closed spec fn vip_groups(&self) -> Seq<(String, Vec<Instance>)> {
        self.vip@
    }

    /// Builds both indexes from one list of instances.
    pub fn build(instances: Vec<Instance>) -> (r: Self)
        ensures
            r.wf(),
            r.source() == views(instances@),
    {
        let vip = group_instances_by_vip(&instances);
        let ghost s = views(instances@);
        let app = group_instances_by_app(instances);
        EurekaCache { app, vip, source: Ghost(s) }
    }

    /// The instances filed under the case-normalised application key `key`.
    pub fn by_app_key(&self, key: &str) -> (r: Vec<Instance>)
        requires
            self.wf(),
        ensures
            views(r@) == having_key(self.source(), app_key(), key@),
    {
        let key = key.to_owned();
        proof {
            lemma_lookup_is_selection(self.app@, self.source@, app_key(), key@);
        }
        lookup(&self.app, &key)
    }

    /// The instances whose case-normalised application name is that of `app_id`.
    pub fn by_app(&self, app_id: &str) -> (r: Vec<Instance>)
        requires
            self.wf(),
        ensures
            views(r@) == having_key(self.source(), app_key(), upper_of(app_id@)),
    {
        let key = to_uppercase(app_id);
        self.by_app_key(key.as_str())
    }

    /// The instances registered under virtual address `vip`.
    pub fn by_vip(&self, vip: &str) -> (r: Vec<Instance>)
        requires
            self.wf(),
        ensures
            views(r@) == having_key(self.source(), vip_key(), vip@),
    {
        let key = vip.to_owned();
        proof {
            lemma_lookup_is_selection(self.vip@, self.source@, vip_key(), key@);
        }
        lookup(&self.vip, &key)
    }
}

/// A reader holding one snapshot sees both of its indexes answer from the same
/// fetched list: an application lookup and a virtual-address lookup are never
/// taken from two different fetches.
pub proof fn lemma_snapshot_indexes_agree(c: EurekaCache, app: Seq<char>, vip: Seq<char>)
    requires
        c.wf(),
    ensures
        group_lookup(c.app_groups(), upper_of(app)) == having_key(c.source(), app_key(), upper_of(app)),
        group_lookup(c.vip_groups(), vip) == having_key(c.source(), vip_key(), vip),
{
    lemma_lookup_is_selection(c.app@, c.source@, app_key(), upper_of(app));
    lemma_lookup_is_selection(c.vip@, c.source@, vip_key(), vip);
}

impl Default for EurekaCache {
    fn default() -> (r: Self)
        ensures
            r.wf(),
            r.source() == Seq::<InstanceView>::empty(),
    {
        EurekaCache { app: Vec::new(), vip: Vec::new(), source: Ghost(Seq::empty()) }
    }
}

/// The cache side of the client: the current snapshot, replaced whole by each
/// successful fetch.
pub struct RegistryClient {
    cache: EurekaCache,
}

impl RegistryClient {
    pub closed spec fn wf(&self) -> bool {
        self.cache.wf()
    }

    /// The instances of the last successful fetch.
    pub closed spec fn source(&self) -> Seq<InstanceView> {
        self.cache.source()
    }

    /// A client that has fetched nothing yet.
    pub fn new() -> (r: Self)
        ensures
            r.wf(),
            r.source() == Seq::<InstanceView>::empty(),
    {
        RegistryClient { cache: EurekaCache::default() }
    }

    /// Replaces the snapshot by one built from the fetched registry.
    pub fn transform_registry(&mut self, registry: AllApplications)
        ensures
            final(self).wf(),
            final(self).source() == views(flatten_applications(registry.applications.application@)),
    {
        let instances = registry.into_instances();
        self.cache = EurekaCache::build(instances);
    }

    /// Takes the outcome of one full-registry fetch: a registry replaces the
    /// snapshot, an error leaves it as it was and is handed back.
    pub fn fetch_registry(&mut self, fetched: Result<AllApplications, EurekaError>) -> (r: Result<(), EurekaError>)
        requires
            old(self).wf(),
        ensures
            final(self).wf(),
            fetched is Ok <==> r is Ok,
            fetched matches Ok(registry) ==> final(self).source() == views(
                flatten_applications(registry.applications.application@),
            ),
            fetched is Err ==> final(self).source() == old(self).source(),
            fetched matches Err(e) ==> r == Err::<(), EurekaError>(e),
    {
        match fetched {
            Ok(registry) => {
                self.transform_registry(registry);
                Ok(())
            },
            Err(e) => Err(e),
        }
    }

    /// All instances of the application `app_id`, compared case-insensitively;
    /// empty when the registry lists none.
    pub fn get_instances_by_app_id(&self, app_id: &str) -> (r: Vec<Instance>)
        requires
            self.wf(),
        ensures
            views(r@) == having_key(self.source(), app_key(), upper_of(app_id@)),
    {
        self.cache.by_app(app_id)
    }

    /// All instances filed under the case-normalised application key `key`.
    pub fn get_instances_by_app_key(&self, key: &str) -> (r: Vec<Instance>)
        requires
            self.wf(),
        ensures
            views(r@) == having_key(self.source(), app_key(), key@),
    {
        self.cache.by_app_key(key)
    }

    /// All instances under the virtual address `vip_address`; empty when the
    /// registry lists none.
    pub fn get_instances_by_vip_address(&self, vip_address: &str) -> (r: Vec<Instance>)
        requires
            self.wf(),
        ensures
            views(r@) == having_key(self.source(), vip_key(), vip_address@),
    {
        self.cache.by_vip(vip_address)
    }

    /// The first listed instance of the application `app`, if any.
    pub fn get_instance_by_app_name(&self, app: &str) -> (r: Option<Instance>)
        requires
            self.wf(),
        ensures
            ({
                let found = having_key(self.source(), app_key(), upper_of(app@));
                &&& r is None <==> found.len() == 0
                &&& r matches Some(i) ==> i@ == found[0]
            }),
    {
        let mut all = self.cache.by_app(app);
        if all.len() == 0 {
            None
        } else {
            let first = all.remove(0);
            proof {
                assert(views(all@.insert(0, first))[0] == first@);
            }
            Some(first)
        }
    }
}

} // verus!
