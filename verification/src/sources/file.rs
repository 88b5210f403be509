//! The source read from a file: a table of resources, the resources that
//! every account may use, and those of each account.
use vstd::prelude::*;

use ordermap::OrderSet;

use crate::errors::SourceError;
use crate::sources::{ResourceModel, Resource, Resources, Source};
use crate::types::{AccountId, ResourceId};

verus! {

// ----------------------------------------------------------------------
// The ordered set of `ordermap`
// ----------------------------------------------------------------------

#[verifier::external_type_specification]
#[verifier::external_body]
#[verifier::reject_recursive_types(T)]
#[verifier::reject_recursive_types(S)]
pub struct ExOrderSet<T, S>(OrderSet<T, S>);

/// The items of an `OrderSet`, in the set's order.
pub uninterp spec fn order_set_items(set: OrderSet<usize>) -> Seq<usize>;

/// Calls `OrderSet::new`. Trusted: the new set is empty.
#[verifier::external_body]
fn order_set_new() -> (set: OrderSet<usize>)
    ensures
        order_set_items(set) == Seq::<usize>::empty(),
{
    OrderSet::new()
}

/// Calls `OrderSet::insert`. Trusted, as its documentation and source
/// state: an item already present leaves the set as it was and gives
/// `false`; a new item goes at the end and gives `true`.
#[verifier::external_body]
fn order_set_insert(set: &mut OrderSet<usize>, item: usize) -> (added: bool)
    ensures
        added == !order_set_items(*old(set)).contains(item),
        added ==> order_set_items(*final(set)) == order_set_items(*old(set)).push(item),
        !added ==> order_set_items(*final(set)) == order_set_items(*old(set)),
{
    set.insert(item)
}

/// Calls `OrderSet::len`. Trusted: the number of items.
#[verifier::external_body]
fn order_set_len(set: &OrderSet<usize>) -> (n: usize)
    ensures
        n == order_set_items(*set).len(),
{
    set.len()
}

/// Calls `OrderSet::get_index`. Trusted: the item at that position, if the
/// position is below the number of items.
#[verifier::external_body]
fn order_set_get_index(set: &OrderSet<usize>, index: usize) -> (r: Option<usize>)
    ensures
        index < order_set_items(*set).len() ==> r == Some(order_set_items(*set)[index as int]),
        index >= order_set_items(*set).len() ==> r is None,
{
    set.get_index(index).copied()
}

// ----------------------------------------------------------------------
// The model
// ----------------------------------------------------------------------

/// The value of the first entry with that key, if any.
pub open spec fn lookup<V>(entries: Seq<(Seq<char>, V)>, key: Seq<char>) -> Option<V>
    decreases entries.len(),
{
    if entries.len() == 0 {
        None
    } else if entries[0].0 == key {
        Some(entries[0].1)
    } else {
        lookup(entries.drop_first(), key)
    }
}

/// No key occurs twice.
pub open spec fn keys_unique<V>(entries: Seq<(Seq<char>, V)>) -> bool {
    forall|i: int, j: int|
        0 <= i < j < entries.len() ==> #[trigger] entries[i].0 != #[trigger] entries[j].0
}

/// The first identifier of `ids` that names no resource, if any.
pub open spec fn first_missing(ids: Seq<Seq<char>>, resources: Seq<(Seq<char>, ResourceModel)>) -> Option<Seq<char>>
    decreases ids.len(),
{
    if ids.len() == 0 {
        None
    } else {
        match first_missing(ids.drop_last(), resources) {
            Some(id) => Some(id),
            None => if lookup(resources, ids.last()) is None { Some(ids.last()) } else { None },
        }
    }
}

/// The resource named by each identifier.
pub open spec fn resolve(ids: Seq<Seq<char>>, resources: Seq<(Seq<char>, ResourceModel)>) -> Seq<ResourceModel> {
    ids.map_values(|id: Seq<char>| lookup(resources, id).unwrap())
}

/// The sequence with every value after its first occurrence taken out.
pub open spec fn dedup<A>(s: Seq<A>) -> Seq<A>
    decreases s.len(),
{
    if s.len() == 0 {
        s
    } else {
        let p = dedup(s.drop_last());
        if p.contains(s.last()) { p } else { p.push(s.last()) }
    }
}

/// The contents of a resources file.
pub struct ResourcesDataView {
    pub resources: Seq<(Seq<char>, ResourceModel)>,
    pub generally_available: Seq<Seq<char>>,
    pub per_account: Seq<(Seq<char>, Seq<Seq<char>>)>,
}

pub open spec fn ids_view(ids: Seq<String>) -> Seq<Seq<char>> {
    ids.map_values(|id: String| id@)
}

/// The identifiers asked for: those available to everyone, then, for a known
/// account, those of the account.
pub open spec fn requested_ids(d: ResourcesDataView, account: Option<Seq<char>>) -> Seq<Seq<char>> {
    match account {
        Some(a) => match lookup(d.per_account, a) {
            Some(ids) => d.generally_available + ids,
            None => d.generally_available,
        },
        None => d.generally_available,
    }
}

/// What a request for the resources of an account comes to.
pub enum ResourcesOutcome {
    Listed(Seq<ResourceModel>),
    UnknownAccount(Seq<char>),
    UnknownResource(Seq<char>),
    OtherError,
}

/// The resources of a request: an unknown account is refused first; then the
/// first requested identifier that names no resource; otherwise the
/// resources of the requested identifiers in order, each value once, at its
/// first place.
pub open spec fn resources_outcome(d: ResourcesDataView, account: Option<Seq<char>>) -> ResourcesOutcome {
    if account matches Some(a) && lookup(d.per_account, a) is None {
        ResourcesOutcome::UnknownAccount(account.unwrap())
    } else {
        let ids = requested_ids(d, account);
        match first_missing(ids, d.resources) {
            Some(id) => ResourcesOutcome::UnknownResource(id),
            None => ResourcesOutcome::Listed(dedup(resolve(ids, d.resources))),
        }
    }
}

pub open spec fn outcome_of(r: Result<Resources, SourceError>) -> ResourcesOutcome {
    match r {
        Ok(list) => ResourcesOutcome::Listed(list@),
        Err(SourceError::AccountNotFound(a)) => ResourcesOutcome::UnknownAccount(a@),
        Err(SourceError::ResourceNotFound(id)) => ResourcesOutcome::UnknownResource(id@),
        Err(_) => ResourcesOutcome::OtherError,
    }
}

pub open spec fn option_view(o: Option<String>) -> Option<Seq<char>> {
    match o {
        Some(s) => Some(s@),
        None => None,
    }
}

// ----------------------------------------------------------------------
// Lemmas on the model
// ----------------------------------------------------------------------

/// Skipping entries whose key differs does not change a lookup.
proof fn lemma_lookup_skip<V>(entries: Seq<(Seq<char>, V)>, key: Seq<char>, i: int)
    requires
        0 <= i <= entries.len(),
        forall|j: int| 0 <= j < i ==> entries[j].0 != key,
    ensures
        lookup(entries, key) == lookup(entries.skip(i), key),
    decreases i,
{
    if i > 0 {
        lemma_lookup_skip(entries.drop_first(), key, i - 1);
        assert(entries.drop_first().skip(i - 1) =~= entries.skip(i));
    } else {
        assert(entries.skip(0) =~= entries);
    }
}

/// A lookup finds the first entry with the key, or nothing if there is none.
proof fn lemma_lookup_at<V>(entries: Seq<(Seq<char>, V)>, key: Seq<char>, i: int)
    requires
        0 <= i <= entries.len(),
        forall|j: int| 0 <= j < i ==> entries[j].0 != key,
        i < entries.len() ==> entries[i].0 == key,
    ensures
        i < entries.len() ==> lookup(entries, key) == Some(entries[i].1),
        i == entries.len() ==> lookup(entries, key) is None,
{
    lemma_lookup_skip(entries, key, i);
    if i < entries.len() {
        assert(entries.skip(i)[0] == entries[i]);
    }
}

/// A value is in the deduplicated sequence exactly when it is in the sequence.
proof fn lemma_dedup_contains<A>(s: Seq<A>, x: A)
    ensures
        dedup(s).contains(x) <==> s.contains(x),
    decreases s.len(),
{
    if s.len() > 0 {
        lemma_dedup_contains(s.drop_last(), x);
        let p = dedup(s.drop_last());
        if s.drop_last().contains(x) {
            let k = choose|k: int| 0 <= k < s.drop_last().len() && s.drop_last()[k] == x;
            assert(s[k] == x);
        }
        if s.contains(x) && x != s.last() {
            let k = choose|k: int| 0 <= k < s.len() && s[k] == x;
            assert(s.drop_last()[k] == x);
        }
        if !p.contains(s.last()) {
            assert(p.push(s.last())[p.len() as int] == s.last());
            if p.contains(x) {
                let k = choose|k: int| 0 <= k < p.len() && p[k] == x;
                assert(p.push(s.last())[k] == x);
            }
            if p.push(s.last()).contains(x) && x != s.last() {
                let k = choose|k: int| 0 <= k < p.len() + 1 && p.push(s.last())[k] == x;
                assert(p[k] == x);
            }
        }
        if s.last() == x {
            assert(s[s.len() - 1] == x);
        }
    }
}

/// The deduplicated sequence holds no value twice.
proof fn lemma_dedup_distinct<A>(s: Seq<A>)
    ensures
        dedup(s).no_duplicates(),
    decreases s.len(),
{
    if s.len() > 0 {
        lemma_dedup_distinct(s.drop_last());
        let p = dedup(s.drop_last());
        if !p.contains(s.last()) {
            let q = p.push(s.last());
            assert forall|i: int, j: int| 0 <= i < q.len() && 0 <= j < q.len() && i != j implies q[i] != q[j] by {
                if i < p.len() && j < p.len() {
                    assert(q[i] == p[i] && q[j] == p[j]);
                } else if i < p.len() {
                    assert(q[i] == p[i]);
                } else {
                    assert(q[j] == p[j]);
                }
            }
        }
    }
}

/// A missing identifier stays the first missing one after more are added.
proof fn lemma_first_missing_append(a: Seq<Seq<char>>, b: Seq<Seq<char>>, resources: Seq<(Seq<char>, ResourceModel)>)
    ensures
        first_missing(a + b, resources) == match first_missing(a, resources) {
            Some(id) => Some(id),
            None => first_missing(b, resources),
        },
    decreases b.len(),
{
    if b.len() == 0 {
        assert(a + b =~= a);
    } else {
        lemma_first_missing_append(a, b.drop_last(), resources);
        assert((a + b).drop_last() =~= a + b.drop_last());
        assert((a + b).last() == b.last());
    }
}

// ----------------------------------------------------------------------
// The data
// ----------------------------------------------------------------------

/// The contents of a resources file: a table of resources by identifier,
/// the identifiers of the resources available to every account, and the
/// identifiers of the resources of each account. No identifier is a key of
/// a table twice.
#[derive(Debug)]
pub struct ResourcesData {
    resources: Vec<(ResourceId, Resource)>,
    generally_available: Vec<ResourceId>,
    per_account: Vec<(AccountId, Vec<ResourceId>)>,
}

pub open spec fn resource_entries_view(entries: Seq<(ResourceId, Resource)>) -> Seq<(Seq<char>, ResourceModel)> {
    entries.map_values(|e: (ResourceId, Resource)| (e.0@, e.1@))
}

pub open spec fn account_entries_view(entries: Seq<(AccountId, Vec<ResourceId>)>) -> Seq<(Seq<char>, Seq<Seq<char>>)> {
    entries.map_values(|e: (AccountId, Vec<ResourceId>)| (e.0@, ids_view(e.1@)))
}

impl View for ResourcesData {
    type V = ResourcesDataView;

    closed spec fn view(&self) -> ResourcesDataView {
        ResourcesDataView {
            resources: resource_entries_view(self.resources@),
            generally_available: ids_view(self.generally_available@),
            per_account: account_entries_view(self.per_account@),
        }
    }
}

impl ResourcesData {
    #[verifier::type_invariant]
    spec fn well_formed(self) -> bool {
        &&& keys_unique(resource_entries_view(self.resources@))
        &&& keys_unique(account_entries_view(self.per_account@))
    }

    /// The data of the tables given, unless a key occurs twice in one of them.
    pub fn new(
        resources: Vec<(ResourceId, Resource)>,
        generally_available: Vec<ResourceId>,
        per_account: Vec<(AccountId, Vec<ResourceId>)>,
    ) -> (r: Option<ResourcesData>)
        ensures
            r is Some <==> keys_unique(resource_entries_view(resources@)) && keys_unique(account_entries_view(per_account@)),
            r matches Some(d) ==> d@ == (ResourcesDataView {
                resources: resource_entries_view(resources@),
                generally_available: ids_view(generally_available@),
                per_account: account_entries_view(per_account@),
            }),
    {
        if !resource_keys_unique(&resources) || !account_keys_unique(&per_account) {
            return None;
        }
        Some(ResourcesData { resources, generally_available, per_account })
    }
}

impl Default for ResourcesData {
    /// Data with no resources and no accounts.
    fn default() -> (r: ResourcesData)
        ensures
            r@.resources.len() == 0,
            r@.generally_available.len() == 0,
            r@.per_account.len() == 0,
    {
        let r = ResourcesData { resources: Vec::new(), generally_available: Vec::new(), per_account: Vec::new() };
        proof {
            assert(r@.resources =~= Seq::empty());
        }
        r
    }
}

/// Whether no resource identifier is a key twice.
fn resource_keys_unique(entries: &Vec<(ResourceId, Resource)>) -> (r: bool)
    ensures
        r == keys_unique(resource_entries_view(entries@)),
{
    let ghost v = resource_entries_view(entries@);
    let n = entries.len();
    for i in 0..n
        invariant
            n == entries@.len(),
            v == resource_entries_view(entries@),
            forall|a: int, b: int| 0 <= a < b < i ==> #[trigger] v[a].0 != #[trigger] v[b].0,
    {
        for j in 0..i
            invariant
                n == entries@.len(),
                i < n,
                v == resource_entries_view(entries@),
                forall|a: int, b: int| 0 <= a < b < i ==> #[trigger] v[a].0 != #[trigger] v[b].0,
                forall|a: int| 0 <= a < j ==> #[trigger] v[a].0 != v[i as int].0,
        {
            if entries[j].0 == entries[i].0 {
                assert(v[j as int].0 == v[i as int].0);
                return false;
            }
        }
    }
    true
}

/// Whether no account identifier is a key twice.
fn account_keys_unique(entries: &Vec<(AccountId, Vec<ResourceId>)>) -> (r: bool)
    ensures
        r == keys_unique(account_entries_view(entries@)),
{
    let ghost v = account_entries_view(entries@);
    let n = entries.len();
    for i in 0..n
        invariant
            n == entries@.len(),
            v == account_entries_view(entries@),
            forall|a: int, b: int| 0 <= a < b < i ==> #[trigger] v[a].0 != #[trigger] v[b].0,
    {
        for j in 0..i
            invariant
                n == entries@.len(),
                i < n,
                v == account_entries_view(entries@),
                forall|a: int, b: int| 0 <= a < b < i ==> #[trigger] v[a].0 != #[trigger] v[b].0,
                forall|a: int| 0 <= a < j ==> #[trigger] v[a].0 != v[i as int].0,
        {
            if entries[j].0 == entries[i].0 {
                assert(v[j as int].0 == v[i as int].0);
                return false;
            }
        }
    }
    true
}

// ----------------------------------------------------------------------
// The request for the resources of an account
// ----------------------------------------------------------------------

/// The items of the set are positions of resources, each the first position
/// of its resource's value, and the resources at those positions are the
/// resources of `ids`, each value once, at its first place.
pub open spec fn set_matches(items: Seq<usize>, res: Seq<(Seq<char>, ResourceModel)>, ids: Seq<Seq<char>>) -> bool {
    &&& forall|k: int| 0 <= k < items.len() ==> #[trigger] items[k] < res.len()
    &&& forall|k: int, x: int| #![trigger items[k], res[x]] 0 <= k < items.len() && 0 <= x < items[k] ==> res[x].1 != res[items[k] as int].1
    &&& items.map_values(|c: usize| res[c as int].1) == dedup(resolve(ids, res))
}

proof fn lemma_insert_step(
    items: Seq<usize>,
    res: Seq<(Seq<char>, ResourceModel)>,
    ids: Seq<Seq<char>>,
    id: Seq<char>,
    j: int,
    c: usize,
)
    requires
        set_matches(items, res, ids),
        0 <= j < res.len(),
        lookup(res, id) == Some(res[j].1),
        c < res.len(),
        res[c as int].1 == res[j].1,
        forall|x: int| 0 <= x < c ==> res[x].1 != res[c as int].1,
    ensures
        items.contains(c) <==> dedup(resolve(ids, res)).contains(res[j].1),
        set_matches(if items.contains(c) { items } else { items.push(c) }, res, ids.push(id)),
{
    let m = res[j].1;
    let model = |c: usize| res[c as int].1;
    let p = dedup(resolve(ids, res));
    assert(items.map_values(model) == p);
    if items.contains(c) {
        let k = choose|k: int| 0 <= k < items.len() && items[k] == c;
        assert(p[k] == m);
    }
    if p.contains(m) {
        let k = choose|k: int| 0 <= k < p.len() && p[k] == m;
        let ck = items[k];
        assert(res[ck as int].1 == m);
        if ck < c {
            assert(res[ck as int].1 != res[c as int].1);
        } else if c < ck {
            assert(res[c as int].1 != res[ck as int].1);
        }
        assert(items[k] == c);
    }
    let ids2 = ids.push(id);
    assert(resolve(ids2, res).drop_last() =~= resolve(ids, res));
    assert(resolve(ids2, res).last() == m);
    assert(dedup(resolve(ids2, res)) == if p.contains(m) { p } else { p.push(m) });
    if !items.contains(c) {
        let items2 = items.push(c);
        assert(items2.map_values(model) =~= p.push(m));
        assert forall|k: int, x: int| #![trigger items2[k], res[x]] 0 <= k < items2.len() && 0 <= x < items2[k] implies res[x].1 != res[items2[k] as int].1 by {
            if k < items.len() {
                assert(items2[k] == items[k]);
            }
        }
    }
}

impl ResourcesData {
    /// The position of the resource with that identifier, if any.
    fn find_resource(&self, id: &ResourceId) -> (r: Option<usize>)
        ensures
            match r {
                Some(i) => i < self@.resources.len() && lookup(self@.resources, id@) == Some(self@.resources[i as int].1),
                None => lookup(self@.resources, id@) is None,
            },
    {
        let ghost v = self@.resources;
        let n = self.resources.len();
        for i in 0..n
            invariant
                n == self.resources@.len(),
                v == self@.resources,
                forall|j: int| 0 <= j < i ==> v[j].0 != id@,
        {
            if self.resources[i].0 == *id {
                proof { lemma_lookup_at(v, id@, i as int); }
                return Some(i);
            }
        }
        proof { lemma_lookup_at(v, id@, n as int); }
        None
    }

    /// The position of the account with that identifier, if any.
    fn find_account(&self, account: &AccountId) -> (r: Option<usize>)
        ensures
            match r {
                Some(i) => i < self@.per_account.len() && lookup(self@.per_account, account@) == Some(self@.per_account[i as int].1),
                None => lookup(self@.per_account, account@) is None,
            },
    {
        let ghost v = self@.per_account;
        let n = self.per_account.len();
        for i in 0..n
            invariant
                n == self.per_account@.len(),
                v == self@.per_account,
                forall|j: int| 0 <= j < i ==> v[j].0 != account@,
        {
            if self.per_account[i].0 == *account {
                proof { lemma_lookup_at(v, account@, i as int); }
                return Some(i);
            }
        }
        proof { lemma_lookup_at(v, account@, n as int); }
        None
    }

    /// The first position whose resource has the same value as the one at `i`.
    fn first_equal(&self, i: usize) -> (c: usize)
        requires
            i < self@.resources.len(),
        ensures
            c <= i,
            self@.resources[c as int].1 == self@.resources[i as int].1,
            forall|x: int| 0 <= x < c ==> self@.resources[x].1 != self@.resources[c as int].1,
    {
        let ghost v = self@.resources;
        for j in 0..i
            invariant
                i < v.len(),
                v == self@.resources,
                v.len() == self.resources@.len(),
                forall|x: int| 0 <= x < j ==> v[x].1 != v[i as int].1,
        {
            if self.resources[j].1.same_as(&self.resources[i].1) {
                return j;
            }
        }
        i
    }

    /// Adds to the set the position of the resource of each of `ids`, in
    /// order, or gives the first of them that names no resource.
    fn insert_ids(&self, set: &mut OrderSet<usize>, ids: &Vec<ResourceId>, Ghost(before): Ghost<Seq<Seq<char>>>) -> (r: Result<(), ResourceId>)
        requires
            set_matches(order_set_items(*old(set)), self@.resources, before),
            first_missing(before, self@.resources) is None,
        ensures
            match first_missing(before + ids_view(ids@), self@.resources) {
                Some(x) => r matches Err(e) && e@ == x,
                None => r is Ok && set_matches(order_set_items(*final(set)), self@.resources, before + ids_view(ids@)),
            },
    {
        let ghost res = self@.resources;
        let ghost all = before + ids_view(ids@);
        let n = ids.len();
        for i in 0..n
            invariant
                n == ids@.len(),
                res == self@.resources,
                all == before + ids_view(ids@),
                set_matches(order_set_items(*set), res, before + ids_view(ids@).take(i as int)),
                first_missing(before + ids_view(ids@).take(i as int), res) is None,
        {
            let ghost prev = before + ids_view(ids@).take(i as int);
            let ghost next = before + ids_view(ids@).take(i + 1);
            assert(next =~= prev.push(ids@[i as int]@));
            match self.find_resource(&ids[i]) {
                None => {
                    proof {
                        assert(next.drop_last() =~= prev);
                        assert(first_missing(next, res) == Some(ids@[i as int]@));
                        lemma_first_missing_append(next, ids_view(ids@).skip(i + 1), res);
                        assert(next + ids_view(ids@).skip(i + 1) =~= all);
                    }
                    return Err(ids[i].clone());
                },
                Some(j) => {
                    let c = self.first_equal(j);
                    proof {
                        lemma_insert_step(order_set_items(*set), res, prev, ids@[i as int]@, j as int, c);
                        assert(next.drop_last() =~= prev);
                    }
                    order_set_insert(set, c);
                },
            }
        }
        assert(ids_view(ids@).take(n as int) =~= ids_view(ids@));
        Ok(())
    }

    /// The resources of an account, or of no account (see `resources_outcome`).
    fn resources_for(&self, account: Option<AccountId>) -> (r: Result<Resources, SourceError>)
        ensures
            outcome_of(r) == resources_outcome(self@, option_view(account)),
    {
        let ghost d = self@;
        let ghost acc = option_view(account);
        let account_index = match account {
            Some(a) => match self.find_account(&a) {
                Some(k) => Some(k),
                None => return Err(SourceError::AccountNotFound(a)),
            },
            None => None,
        };
        let mut set = order_set_new();
        proof {
            assert(Seq::<Seq<char>>::empty() + d.generally_available =~= d.generally_available);
            assert(resolve(Seq::<Seq<char>>::empty(), d.resources) =~= Seq::<ResourceModel>::empty());
            assert(order_set_items(set).map_values(|c: usize| d.resources[c as int].1) =~= Seq::<ResourceModel>::empty());
        }
        match self.insert_ids(&mut set, &self.generally_available, Ghost(Seq::empty())) {
            Err(id) => {
                proof {
                    if let Some(k) = account_index {
                        lemma_first_missing_append(d.generally_available, d.per_account[k as int].1, d.resources);
                    }
                }
                return Err(SourceError::ResourceNotFound(id));
            },
            Ok(()) => {},
        }
        let ghost ids = d.generally_available;
        if let Some(k) = account_index {
            match self.insert_ids(&mut set, &self.per_account[k].1, Ghost(d.generally_available)) {
                Err(id) => return Err(SourceError::ResourceNotFound(id)),
                Ok(()) => {},
            }
            proof { ids = d.generally_available + d.per_account[k as int].1; }
        }
        assert(ids == requested_ids(d, acc));
        let ghost items = order_set_items(set);
        let n = order_set_len(&set);
        let mut out: Vec<Resource> = Vec::new();
        for k in 0..n
            invariant
                n == items.len(),
                items == order_set_items(set),
                d == self@,
                set_matches(items, d.resources, ids),
                d.resources.len() == self.resources@.len(),
                out@.map_values(|r: Resource| r@) =~= items.take(k as int).map_values(|c: usize| d.resources[c as int].1),
        {
            let c = order_set_get_index(&set, k).unwrap();
            assert(c < d.resources.len());
            let r = self.resources[c].1.duplicate();
            let ghost before_push = out@;
            out.push(r);
            proof {
                assert(r@ == d.resources[c as int].1);
                assert(out@.map_values(|r: Resource| r@) =~= before_push.map_values(|r: Resource| r@).push(r@));
                assert(items.take(k + 1) =~= items.take(k as int).push(c));
            }
        }
        assert(items.take(n as int) =~= items);
        Ok(Resources { resources: out })
    }
}

/// A source of resources read from a file.
pub struct FileSource {
    data: ResourcesData,
}

impl View for FileSource {
    type V = ResourcesDataView;

    closed spec fn view(&self) -> ResourcesDataView {
        self.data@
    }
}

impl FileSource {
    /// A source that serves the given data.
    pub fn new(data: ResourcesData) -> (r: FileSource)
        ensures
            r@ == data@,
    {
        FileSource { data }
    }
}

impl Source for FileSource {
    /// The resources available to every account, followed, when an account
    /// asks, by the resources of that account; each resource once, at its
    /// first place. An unknown account, then an identifier that names no
    /// resource, is an error.
    fn get_resources(&self, account: Option<AccountId>) -> (r: Result<Resources, SourceError>)
        ensures
            outcome_of(r) == resources_outcome(self@, option_view(account)),
    {
        self.data.resources_for(account)
    }
}

// ----------------------------------------------------------------------
// Laws
// ----------------------------------------------------------------------

proof fn lemma_dedup_prefix<A>(s: Seq<A>, t: Seq<A>)
    ensures
        dedup(s).len() <= dedup(s + t).len(),
        dedup(s + t).take(dedup(s).len() as int) == dedup(s),
    decreases t.len(),
{
    if t.len() == 0 {
        assert(s + t =~= s);
        assert(dedup(s).take(dedup(s).len() as int) =~= dedup(s));
    } else {
        lemma_dedup_prefix(s, t.drop_last());
        assert((s + t).drop_last() =~= s + t.drop_last());
        let p = dedup(s + t.drop_last());
        let n = dedup(s).len() as int;
        if !p.contains((s + t).last()) {
            assert(p.push((s + t).last()).take(n) =~= p.take(n));
        }
    }
}

proof fn lemma_resolve_append(a: Seq<Seq<char>>, b: Seq<Seq<char>>, res: Seq<(Seq<char>, ResourceModel)>)
    ensures
        resolve(a + b, res) == resolve(a, res) + resolve(b, res),
{
    assert(resolve(a + b, res) =~= resolve(a, res) + resolve(b, res));
}

/// A listed answer holds no resource twice.
pub proof fn law_listed_without_repeats(d: ResourcesDataView, account: Option<Seq<char>>)
    ensures
        resources_outcome(d, account) matches ResourcesOutcome::Listed(list) ==> list.no_duplicates(),
{
    lemma_dedup_distinct(resolve(requested_ids(d, account), d.resources));
}

/// A listed answer holds exactly the resources named by the requested
/// identifiers.
pub proof fn law_listed_exactly_requested(d: ResourcesDataView, account: Option<Seq<char>>, m: ResourceModel)
    ensures
        resources_outcome(d, account) matches ResourcesOutcome::Listed(list) ==> (list.contains(m) <==> exists|i: int|
            0 <= i < requested_ids(d, account).len() && lookup(d.resources, #[trigger] requested_ids(d, account)[i]) == Some(m)),
{
    let ids = requested_ids(d, account);
    let s = resolve(ids, d.resources);
    if resources_outcome(d, account) is Listed {
        lemma_dedup_contains(s, m);
        lemma_first_missing_none(ids, d.resources);
        if s.contains(m) {
            let i = choose|i: int| 0 <= i < s.len() && s[i] == m;
            assert(lookup(d.resources, ids[i]) == Some(m));
        }
        if exists|i: int| 0 <= i < ids.len() && lookup(d.resources, #[trigger] ids[i]) == Some(m) {
            let i = choose|i: int| 0 <= i < ids.len() && lookup(d.resources, #[trigger] ids[i]) == Some(m);
            assert(s[i] == m);
        }
    }
}

/// With no missing identifier, every identifier names a resource.
proof fn lemma_first_missing_none(ids: Seq<Seq<char>>, res: Seq<(Seq<char>, ResourceModel)>)
    ensures
        first_missing(ids, res) is None ==> forall|i: int| 0 <= i < ids.len() ==> lookup(res, #[trigger] ids[i]) is Some,
    decreases ids.len(),
{
    if ids.len() > 0 {
        lemma_first_missing_none(ids.drop_last(), res);
        if first_missing(ids, res) is None {
            assert forall|i: int| 0 <= i < ids.len() implies lookup(res, #[trigger] ids[i]) is Some by {
                if i < ids.len() - 1 {
                    assert(ids.drop_last()[i] == ids[i]);
                }
            }
        }
    }
}

/// The resources available to everyone come first, in the same order, in
/// the answer to any known account: when an account's request is listed, so
/// is the request of no account, and it is a prefix of the account's list.
pub proof fn law_generally_available_first(d: ResourcesDataView, account: Seq<char>)
    ensures
        resources_outcome(d, Some(account)) matches ResourcesOutcome::Listed(with_account) ==> (
            resources_outcome(d, None) matches ResourcesOutcome::Listed(anonymous)
            && anonymous.len() <= with_account.len()
            && with_account.take(anonymous.len() as int) == anonymous),
{
    if resources_outcome(d, Some(account)) is Listed {
        let ga = d.generally_available;
        let own = lookup(d.per_account, account).unwrap();
        lemma_first_missing_append(ga, own, d.resources);
        lemma_resolve_append(ga, own, d.resources);
        lemma_dedup_prefix(resolve(ga, d.resources), resolve(own, d.resources));
    }
}

/// For a known account, a listed answer is the resources named by the
/// identifiers available to everyone followed by the account's identifiers,
/// in their given order, each value kept only at its first occurrence.
pub proof fn law_known_account_listing(d: ResourcesDataView, account: Seq<char>)
    ensures
        lookup(d.per_account, account) matches Some(own) ==> (
            resources_outcome(d, Some(account)) matches ResourcesOutcome::Listed(list) ==>
                list == dedup((d.generally_available + own).map_values(
                    |id: Seq<char>| lookup(d.resources, id).unwrap()))),
{
    if lookup(d.per_account, account) is Some {
        let own = lookup(d.per_account, account).unwrap();
        assert(requested_ids(d, Some(account)) == d.generally_available + own);
    }
}

/// Without an account, a listed answer is the resources named by the
/// identifiers available to everyone, in their order, each value kept only
/// at its first occurrence.
pub proof fn law_anonymous_listing(d: ResourcesDataView)
    ensures
        resources_outcome(d, None) matches ResourcesOutcome::Listed(list) ==>
            list == dedup(d.generally_available.map_values(
                |id: Seq<char>| lookup(d.resources, id).unwrap())),
{
}

} // verus!
