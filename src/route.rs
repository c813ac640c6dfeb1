//! The route registry: routines grouped by category, fixed after construction.

use vstd::prelude::*;

verus! {

/// A selectable autonomous routine.
///
/// `category` is the key of the group the routine is listed under; groups are
/// shown in ascending key order. `callback` is whatever the integrator runs
/// when the routine is chosen; the registry only hands it back.
#[derive(Clone)]
pub struct Route<F> {
    pub category: u32,
    pub name: String,
    pub description: String,
    pub callback: F,
}

/// The category keys of a list of routes, in registration order.
pub open spec fn keys_of<F>(routes: Seq<Route<F>>) -> Seq<u32> {
    routes.map_values(|r: Route<F>| r.category)
}

/// `s` is strictly ascending.
pub open spec fn strictly_ascending(s: Seq<u32>) -> bool {
    forall|i: int, j: int| 0 <= i < j < s.len() ==> s[i] < s[j]
}

/// `cats` is the category list derived from `keys`: strictly ascending, and
/// holding exactly the keys that occur in `keys`.
pub open spec fn is_category_list(keys: Seq<u32>, cats: Seq<u32>) -> bool {
    &&& strictly_ascending(cats)
    &&& forall|k: u32| cats.contains(k) <==> keys.contains(k)
}

/// Pushing `k` onto `s` adds exactly `k` to what it contains.
proof fn lemma_push_contains(s: Seq<u32>, k: u32)
    ensures
        forall|x: u32| #[trigger] s.push(k).contains(x) <==> (s.contains(x) || x == k),
{
    assert forall|x: u32| #[trigger] s.push(k).contains(x) <==> (s.contains(x) || x == k) by {
        if s.contains(x) {
            let w = choose|w: int| 0 <= w < s.len() && s[w] == x;
            assert(s.push(k)[w] == x);
        }
        if x == k {
            assert(s.push(k)[s.len() as int] == x);
        }
        if s.push(k).contains(x) && x != k {
            let w = choose|w: int| 0 <= w < s.len() + 1 && s.push(k)[w] == x;
            assert(s[w] == x);
        }
    }
}

/// Inserting `k` at `pos` adds exactly `k` to what `s` contains.
proof fn lemma_insert_contains(s: Seq<u32>, pos: int, k: u32)
    requires
        0 <= pos <= s.len(),
    ensures
        forall|x: u32| #[trigger] s.insert(pos, k).contains(x) <==> (s.contains(x) || x == k),
{
    let t = s.insert(pos, k);
    assert forall|x: u32| #[trigger] t.contains(x) <==> (s.contains(x) || x == k) by {
        if s.contains(x) {
            let w = choose|w: int| 0 <= w < s.len() && s[w] == x;
            if w < pos {
                assert(t[w] == x);
            } else {
                assert(t[w + 1] == x);
            }
        }
        if x == k {
            assert(t[pos] == x);
        }
        if t.contains(x) && x != k {
            let w = choose|w: int| 0 <= w < t.len() && t[w] == x;
            if w < pos {
                assert(s[w] == x);
            } else {
                assert(s[w - 1] == x);
            }
        }
    }
}

/// Computes the category list of `keys`: the distinct keys, ascending.
pub fn derive_categories(keys: &Vec<u32>) -> (cats: Vec<u32>)
    ensures
        is_category_list(keys@, cats@),
{
    let mut cats: Vec<u32> = Vec::new();
    let mut i: usize = 0;
    while i < keys.len()
        invariant
            i <= keys.len(),
            is_category_list(keys@.take(i as int), cats@),
        decreases keys.len() - i,
    {
        let k = keys[i];
        let mut pos: usize = 0;
        while pos < cats.len() && cats[pos] < k
            invariant
                pos <= cats.len(),
                forall|j: int| 0 <= j < pos ==> cats@[j] < k,
            decreases cats.len() - pos,
        {
            pos = pos + 1;
        }
        let ghost prev = keys@.take(i as int);
        proof {
            assert(keys@.take(i + 1) == prev.push(k));
            lemma_push_contains(prev, k);
        }
        if pos < cats.len() && cats[pos] == k {
            proof {
                assert(cats@.contains(k));
            }
        } else {
            let ghost before = cats@;
            cats.insert(pos, k);
            proof {
                lemma_insert_contains(before, pos as int, k);
                assert forall|a: int, b: int| 0 <= a < b < cats@.len() implies cats@[a] < cats@[b] by {
                    if b == pos {
                        assert(before[a] < k);
                    } else if b > pos {
                        if a < pos {
                            assert(before[a] < k);
                        }
                        if a <= pos {
                            assert(k < before[pos as int]);
                        }
                        if pos < b - 1 && a <= pos {
                            assert(before[pos as int] < before[b - 1]);
                        }
                    }
                }
            }
        }
        i = i + 1;
    }
    proof {
        assert(keys@.take(keys@.len() as int) == keys@);
    }
    cats
}

/// Two strictly ascending sequences holding the same elements are equal.
proof fn lemma_ascending_same_elements(a: Seq<u32>, b: Seq<u32>)
    requires
        strictly_ascending(a),
        strictly_ascending(b),
        forall|k: u32| a.contains(k) <==> b.contains(k),
    ensures
        a == b,
    decreases a.len() + b.len(),
{
    if a.len() == 0 || b.len() == 0 {
        if a.len() > 0 {
            assert(a.contains(a[0]));
        }
        if b.len() > 0 {
            assert(b.contains(b[0]));
        }
        assert(a =~= b);
    } else {
        let la = a.last();
        let lb = b.last();
        assert(a.contains(la));
        assert(b.contains(lb));
        let ia = choose|ia: int| 0 <= ia < a.len() && a[ia] == lb;
        let ib = choose|ib: int| 0 <= ib < b.len() && b[ib] == la;
        assert(la == lb) by {
            if ia < a.len() - 1 {
                assert(a[ia] < la);
            }
            if ib < b.len() - 1 {
                assert(b[ib] < lb);
            }
        }
        let a2 = a.drop_last();
        let b2 = b.drop_last();
        assert forall|k: u32| a2.contains(k) implies b2.contains(k) by {
            let w = choose|w: int| 0 <= w < a2.len() && a2[w] == k;
            assert(a[w] == k && a[w] < la);
            assert(b.contains(k));
            let v = choose|v: int| 0 <= v < b.len() && b[v] == k;
            assert(b2[v] == k);
        }
        assert forall|k: u32| b2.contains(k) implies a2.contains(k) by {
            let w = choose|w: int| 0 <= w < b2.len() && b2[w] == k;
            assert(b[w] == k && b[w] < lb);
            assert(a.contains(k));
            let v = choose|v: int| 0 <= v < a.len() && a[v] == k;
            assert(a2[v] == k);
        }
        lemma_ascending_same_elements(a2, b2);
        assert(a =~= a2.push(la));
        assert(b =~= b2.push(lb));
    }
}

/// The category list of a key sequence is unique: any two lists derived
/// from the same keys are equal, so the display order never depends on how
/// or how often it was computed.
pub proof fn lemma_category_list_unique(keys: Seq<u32>, a: Seq<u32>, b: Seq<u32>)
    requires
        is_category_list(keys, a),
        is_category_list(keys, b),
    ensures
        a == b,
{
    lemma_ascending_same_elements(a, b);
}

/// The global indices of the routes whose key is `key`, in registration order.
pub open spec fn members(keys: Seq<u32>, key: u32) -> Seq<usize>
    decreases keys.len(),
{
    if keys.len() == 0 {
        Seq::empty()
    } else if keys.last() == key {
        members(keys.drop_last(), key).push((keys.len() - 1) as usize)
    } else {
        members(keys.drop_last(), key)
    }
}

/// The position of route `g` within its own category.
pub open spec fn local_index(keys: Seq<u32>, g: int) -> int {
    members(keys.take(g), keys[g]).len() as int
}

/// The position of `key` in the category list `cats`.
pub open spec fn position_of(cats: Seq<u32>, key: u32) -> int {
    choose|c: int| 0 <= c < cats.len() && cats[c] == key
}

/// The route that the `l`-th entry of category `c` stands for, if both exist.
pub open spec fn spec_resolve(keys: Seq<u32>, cats: Seq<u32>, c: int, l: int) -> Option<usize> {
    if 0 <= c < cats.len() && 0 <= l < members(keys, cats[c]).len() {
        Some(members(keys, cats[c])[l])
    } else {
        None
    }
}

/// The category and in-category position of route `g`, if it exists.
pub open spec fn spec_locate(keys: Seq<u32>, cats: Seq<u32>, g: int) -> Option<(usize, usize)> {
    if 0 <= g < keys.len() {
        Some((position_of(cats, keys[g]) as usize, local_index(keys, g) as usize))
    } else {
        None
    }
}

/// Each member index is a route of that key, and its in-category position is
/// its place in the member list.
proof fn lemma_members(keys: Seq<u32>, key: u32)
    requires
        keys.len() <= usize::MAX,
    ensures
        members(keys, key).len() <= keys.len(),
        forall|j: int| #![trigger members(keys, key)[j]] 0 <= j < members(keys, key).len() ==> {
            let g = members(keys, key)[j] as int;
            &&& g < keys.len()
            &&& keys[g] == key
            &&& members(keys.take(g), key).len() == j
        },
    decreases keys.len(),
{
    if keys.len() > 0 {
        let prev = keys.drop_last();
        lemma_members(prev, key);
        let m = members(keys, key);
        assert forall|j: int| #![trigger members(keys, key)[j]] 0 <= j < m.len() implies {
            let g = m[j] as int;
            &&& g < keys.len()
            &&& keys[g] == key
            &&& members(keys.take(g), key).len() == j
        } by {
            let mp = members(prev, key);
            if j < mp.len() {
                let g = mp[j] as int;
                assert(keys.take(g) == prev.take(g));
            } else {
                assert(keys.take(keys.len() - 1) == prev);
            }
        }
    }
}

/// The members of a prefix of `keys` are a prefix of the members of `keys`.
proof fn lemma_members_prefix(keys: Seq<u32>, key: u32, n: int)
    requires
        0 <= n <= keys.len(),
    ensures
        members(keys.take(n), key).len() <= members(keys, key).len(),
        members(keys, key).take(members(keys.take(n), key).len() as int) == members(keys.take(n), key),
    decreases keys.len(),
{
    if n == keys.len() {
        assert(keys.take(n) == keys);
        assert(members(keys, key).take(members(keys, key).len() as int) == members(keys, key));
    } else {
        let prev = keys.drop_last();
        assert(keys.take(n) == prev.take(n));
        lemma_members_prefix(prev, key, n);
        let mp = members(prev, key);
        let mn = members(keys.take(n), key);
        assert(members(keys, key).take(mn.len() as int) == mp.take(mn.len() as int));
    }
}

/// Route `g` is found again in its category's member list at its local index.
proof fn lemma_member_at_local_index(keys: Seq<u32>, g: int)
    requires
        0 <= g < keys.len(),
        keys.len() <= usize::MAX,
    ensures
        0 <= local_index(keys, g) < members(keys, keys[g]).len(),
        members(keys, keys[g])[local_index(keys, g)] == g,
{
    let key = keys[g];
    let next = keys.take(g + 1);
    assert(next.drop_last() == keys.take(g));
    assert(next.last() == key);
    lemma_members_prefix(keys, key, g + 1);
    let mn = members(next, key);
    assert(mn[mn.len() - 1] == g);
    assert(members(keys, key).take(mn.len() as int)[mn.len() - 1] == g);
}

/// Why a registry could not be built.
#[derive(Debug, Clone, Copy, PartialEq, Eq)]
pub enum RegistryError {
    /// The route list was empty: there would be nothing to select.
    NoRoutes,
}

/// The catalog of routes and their categories; read-only once built.
pub struct RouteRegistry<F> {
    routes: Vec<Route<F>>,
    categories: Vec<u32>,
    groups: Vec<Vec<usize>>,
}

impl<F> RouteRegistry<F> {
    /// The routes, in registration order.
    pub closed spec fn spec_routes(&self) -> Seq<Route<F>> {
        self.routes@
    }

    /// The category keys of the routes, in registration order.
    pub open spec fn spec_keys(&self) -> Seq<u32> {
        keys_of(self.spec_routes())
    }

    /// The category list, ascending.
    pub closed spec fn spec_categories(&self) -> Seq<u32> {
        self.categories@
    }

    /// The registry is non-empty, its category list is the one its routes
    /// give, and the stored groups list each category's members.
    pub closed spec fn wf(&self) -> bool {
        &&& 0 < self.routes@.len() <= usize::MAX
        &&& is_category_list(self.spec_keys(), self.categories@)
        &&& self.groups@.len() == self.categories@.len() <= usize::MAX
        &&& forall|c: int| #![trigger self.groups@[c]] 0 <= c < self.groups@.len()
            ==> self.groups@[c]@ == members(self.spec_keys(), self.categories@[c])
    }

    /// What a well-formed registry states about its parts.
    pub proof fn lemma_wf(&self)
        requires
            self.wf(),
        ensures
            0 < self.spec_routes().len() <= usize::MAX,
            is_category_list(self.spec_keys(), self.spec_categories()),
            0 < self.spec_categories().len() <= usize::MAX,
    {
        let k = self.spec_keys()[0];
        assert(self.spec_keys().contains(k));
        assert(self.spec_categories().contains(k));
    }

    /// Builds the registry; an empty route list is refused.
    pub fn new(routes: Vec<Route<F>>) -> (r: Result<RouteRegistry<F>, RegistryError>)
        ensures
            routes@.len() == 0 <==> r is Err,
            r matches Err(e) ==> e == RegistryError::NoRoutes,
            r matches Ok(reg) ==> {
                &&& reg.wf()
                &&& reg.spec_routes() == routes@
                &&& is_category_list(keys_of(routes@), reg.spec_categories())
            },
    {
        if routes.len() == 0 {
            return Err(RegistryError::NoRoutes);
        }
        let mut keys: Vec<u32> = Vec::new();
        let mut i: usize = 0;
        while i < routes.len()
            invariant
                i <= routes.len(),
                keys@ == keys_of(routes@).take(i as int),
            decreases routes.len() - i,
        {
            keys.push(routes[i].category);
            proof {
                assert(keys_of(routes@).take(i + 1) == keys_of(routes@).take(i as int).push(routes@[i as int].category));
            }
            i = i + 1;
        }
        proof {
            assert(keys_of(routes@).take(routes@.len() as int) == keys_of(routes@));
        }
        let categories = derive_categories(&keys);
        let mut groups: Vec<Vec<usize>> = Vec::new();
        let mut c: usize = 0;
        while c < categories.len()
            invariant
                c <= categories.len(),
                keys@ == keys_of(routes@),
                groups@.len() == c,
                forall|d: int| #![trigger groups@[d]] 0 <= d < c ==> groups@[d]@ == members(keys@, categories@[d]),
            decreases categories.len() - c,
        {
            let key = categories[c];
            let mut group: Vec<usize> = Vec::new();
            let mut g: usize = 0;
            while g < keys.len()
                invariant
                    g <= keys.len(),
                    group@ == members(keys@.take(g as int), key),
                decreases keys.len() - g,
            {
                proof {
                    let next = keys@.take(g + 1);
                    assert(next.drop_last() == keys@.take(g as int));
                }
                if keys[g] == key {
                    group.push(g);
                }
                g = g + 1;
            }
            proof {
                assert(keys@.take(keys@.len() as int) == keys@);
            }
            groups.push(group);
            c = c + 1;
        }
        Ok(RouteRegistry { routes, categories, groups })
    }

    /// The number of routes.
    pub fn route_count(&self) -> (n: usize)
        ensures
            n == self.spec_routes().len(),
    {
        self.routes.len()
    }

    /// The number of categories.
    pub fn category_count(&self) -> (n: usize)
        ensures
            n == self.spec_categories().len(),
    {
        self.categories.len()
    }

    /// The category keys, ascending.
    pub fn categories(&self) -> (cats: &Vec<u32>)
        ensures
            cats@ == self.spec_categories(),
    {
        &self.categories
    }

    /// The global indices of the routes of category `c`, in registration order.
    pub fn routes_in(&self, c: usize) -> (g: &Vec<usize>)
        requires
            self.wf(),
            c < self.spec_categories().len(),
        ensures
            g@ == members(self.spec_keys(), self.spec_categories()[c as int]),
    {
        &self.groups[c]
    }

    /// The global index of the `local`-th route of category `c`.
    pub fn resolve(&self, c: usize, local: usize) -> (g: Option<usize>)
        requires
            self.wf(),
        ensures
            g == spec_resolve(self.spec_keys(), self.spec_categories(), c as int, local as int),
    {
        if c < self.groups.len() && local < self.groups[c].len() {
            Some(self.groups[c][local])
        } else {
            None
        }
    }

    /// The category and in-category position of route `g`.
    pub fn locate(&self, g: usize) -> (r: Option<(usize, usize)>)
        requires
            self.wf(),
        ensures
            r == spec_locate(self.spec_keys(), self.spec_categories(), g as int),
    {
        if g >= self.routes.len() {
            return None;
        }
        let ghost keys = self.spec_keys();
        let ghost cats = self.categories@;
        let key = self.routes[g].category;
        proof {
            assert(keys.contains(key));
            assert(cats.contains(key));
        }
        let mut c: usize = 0;
        while c < self.categories.len() && self.categories[c] != key
            invariant
                c <= cats.len(),
                cats == self.categories@,
                cats.contains(key),
                forall|d: int| 0 <= d < c ==> cats[d] != key,
            decreases cats.len() - c,
        {
            c = c + 1;
        }
        proof {
            if c == cats.len() {
                let w = choose|w: int| 0 <= w < cats.len() && cats[w] == key;
                assert(cats[w] != key);
            }
            let p = position_of(cats, key);
            assert(0 <= p < cats.len() && cats[p] == key);
            if p < c {
                assert(cats[p] < cats[c as int]);
            } else if p > c {
                assert(cats[c as int] < cats[p]);
            }
        }
        let mut local: usize = 0;
        let mut j: usize = 0;
        while j < g
            invariant
                j <= g < keys.len(),
                keys == self.spec_keys(),
                key == keys[g as int],
                local == members(keys.take(j as int), key).len(),
                local <= j,
            decreases g - j,
        {
            proof {
                assert(keys.take(j + 1).drop_last() == keys.take(j as int));
            }
            if self.routes[j].category == key {
                local = local + 1;
            }
            j = j + 1;
        }
        Some((c, local))
    }

    /// The route with global index `g`.
    pub fn route(&self, g: usize) -> (r: &Route<F>)
        requires
            g < self.spec_routes().len(),
        ensures
            *r == self.spec_routes()[g as int],
    {
        &self.routes[g]
    }

    /// The callback of route `g`.
    pub fn callback(&self, g: usize) -> (f: &F)
        requires
            g < self.spec_routes().len(),
        ensures
            *f == self.spec_routes()[g as int].callback,
    {
        &self.routes[g].callback
    }
}

/// Resolving an entry of a category to its route and locating that route
/// again gives back the same category and entry, and the route is filed under
/// that category.
pub proof fn lemma_resolve_locate<F>(reg: &RouteRegistry<F>, c: int, l: int)
    requires
        reg.wf(),
        0 <= c < reg.spec_categories().len(),
        0 <= l < members(reg.spec_keys(), reg.spec_categories()[c]).len(),
    ensures
        spec_resolve(reg.spec_keys(), reg.spec_categories(), c, l) matches Some(g) && {
            &&& g < reg.spec_routes().len()
            &&& reg.spec_routes()[g as int].category == reg.spec_categories()[c]
            &&& spec_locate(reg.spec_keys(), reg.spec_categories(), g as int) == Some((c as usize, l as usize))
        },
{
    let keys = reg.spec_keys();
    let cats = reg.spec_categories();
    let key = cats[c];
    reg.lemma_wf();
    assert(keys.len() == reg.spec_routes().len());
    lemma_members(keys, key);
    let g = members(keys, key)[l] as int;
    let p = position_of(cats, keys[g]);
    assert(cats.contains(keys[g]));
    if p < c {
        assert(cats[p] < cats[c]);
    } else if p > c {
        assert(cats[c] < cats[p]);
    }
}

/// Locating a route and resolving the result gives back the same route: every
/// route is listed exactly where `locate` says.
pub proof fn lemma_locate_resolve<F>(reg: &RouteRegistry<F>, g: int)
    requires
        reg.wf(),
        0 <= g < reg.spec_routes().len(),
    ensures
        spec_locate(reg.spec_keys(), reg.spec_categories(), g) matches Some((c, l))
            && spec_resolve(reg.spec_keys(), reg.spec_categories(), c as int, l as int) == Some(g as usize),
{
    let keys = reg.spec_keys();
    let cats = reg.spec_categories();
    reg.lemma_wf();
    lemma_member_at_local_index(keys, g);
    lemma_members(keys, keys[g]);
    assert(cats.contains(keys[g]));
    let p = position_of(cats, keys[g]);
    assert(0 <= p < cats.len() && cats[p] == keys[g]);
}

/// The member list of a key is strictly ascending.
proof fn lemma_members_ascending(keys: Seq<u32>, key: u32)
    requires
        keys.len() <= usize::MAX,
    ensures
        forall|i: int, j: int| 0 <= i < j < members(keys, key).len() ==> members(keys, key)[i] < members(keys, key)[j],
    decreases keys.len(),
{
    if keys.len() > 0 {
        let prev = keys.drop_last();
        lemma_members_ascending(prev, key);
        lemma_members(prev, key);
    }
}

/// The groups partition the routes: each category's group is non-empty and
/// ascending, and route `g` belongs to the group of category `c` exactly
/// when `c` is the position of its key.
pub proof fn lemma_groups_partition<F>(reg: &RouteRegistry<F>, c: int, g: int)
    requires
        reg.wf(),
        0 <= c < reg.spec_categories().len(),
        0 <= g < reg.spec_routes().len(),
    ensures
        members(reg.spec_keys(), reg.spec_categories()[c]).len() > 0,
        forall|i: int, j: int| 0 <= i < j < members(reg.spec_keys(), reg.spec_categories()[c]).len()
            ==> members(reg.spec_keys(), reg.spec_categories()[c])[i] < members(reg.spec_keys(), reg.spec_categories()[c])[j],
        members(reg.spec_keys(), reg.spec_categories()[c]).contains(g as usize)
            <==> c == position_of(reg.spec_categories(), reg.spec_keys()[g]),
{
    let keys = reg.spec_keys();
    let cats = reg.spec_categories();
    let key = cats[c];
    reg.lemma_wf();
    lemma_members_ascending(keys, key);
    lemma_members(keys, key);
    assert(cats.contains(key));
    let w = choose|w: int| 0 <= w < keys.len() && keys[w] == key;
    lemma_member_at_local_index(keys, w);
    assert(cats.contains(keys[g]));
    let p = position_of(cats, keys[g]);
    let m = members(keys, key);
    if m.contains(g as usize) {
        let j = choose|j: int| 0 <= j < m.len() && m[j] == g as usize;
        assert(keys[m[j] as int] == key);
        if p < c {
            assert(cats[p] < cats[c]);
        } else if p > c {
            assert(cats[c] < cats[p]);
        }
    }
    if c == p {
        lemma_member_at_local_index(keys, g);
        assert(m[local_index(keys, g)] == g);
    }
}

} // verus!
