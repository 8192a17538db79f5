//! The table of script routes: which handler answers a request path.
//!
//! Scripts register handlers under paths; a path without a leading `/` gets
//! one.  A request is answered by the handler registered under exactly its
//! path, or with `404 Route not found`.
use vstd::prelude::*;

verus! {

/// Whether a path starts with `/`.
pub open spec fn starts_with_slash(p: Seq<char>) -> bool {
    p.len() > 0 && p[0] == '/'
}

/// A route path as it is stored: with a leading `/`, added when missing.
pub open spec fn normalized_path(p: Seq<char>) -> Seq<char> {
    if starts_with_slash(p) {
        p
    } else {
        seq!['/'] + p
    }
}

/// Whether `path` starts with `/`.
pub fn has_leading_slash(path: &str) -> (b: bool)
    ensures
        b == starts_with_slash(path@),
        b == (path@.len() > 0 && path@[0] == '/'),
{
    let n = path.unicode_len();
    n > 0 && path.get_char(0) == '/'
}

/// The path under which a route is stored: `path` itself when it starts with
/// `/`, else `path` with a `/` put in front.
pub fn normalize_route_path(path: String) -> (res: String)
    ensures
        res@ == normalized_path(path@),
        path@.len() > 0 && path@[0] == '/' ==> res@ == path@,
        !(path@.len() > 0 && path@[0] == '/') ==> res@ == seq!['/'] + path@,
{
    if has_leading_slash(path.as_str()) {
        path
    } else {
        let mut res = String::from_str("/");
        proof {
            reveal_strlit("/");
        }
        res.append(path.as_str());
        res
    }
}

/// Whether `path` is stored at position `i` of `entries`.
spec fn stored_at<H>(entries: Seq<(String, H)>, i: int, path: Seq<char>) -> bool {
    0 <= i < entries.len() && entries[i].0@ == path
}

/// Whether no path occurs twice in `entries`.
spec fn keys_distinct<H>(entries: Seq<(String, H)>) -> bool {
    forall|i: int, j: int|
        0 <= i < j < entries.len() ==> #[trigger] entries[i].0@ != #[trigger] entries[j].0@
}

/// The position at which `path` is stored in `entries`.
spec fn index_of<H>(entries: Seq<(String, H)>, path: Seq<char>) -> int {
    choose|i: int| stored_at(entries, i, path)
}

/// The handlers of `entries` by path.
spec fn entries_map<H>(entries: Seq<(String, H)>) -> Map<Seq<char>, H> {
    Map::new(
        |p: Seq<char>| exists|i: int| stored_at(entries, i, p),
        |p: Seq<char>| entries[index_of(entries, p)].1,
    )
}

/// The paths of `entries`, in order.
spec fn keys_of<H>(entries: Seq<(String, H)>) -> Seq<Seq<char>> {
    entries.map_values(|e: (String, H)| e.0@)
}

/// A table built from finitely many entries has finitely many paths.
proof fn lemma_map_finite<H>(entries: Seq<(String, H)>)
    ensures
        entries_map(entries).dom().finite(),
{
    let keys = keys_of(entries);
    vstd::seq_lib::seq_to_set_is_finite(keys);
    assert forall|p: Seq<char>| #[trigger] entries_map(entries).dom().contains(p)
        <==> keys.to_set().contains(p) by {
        if entries_map(entries).dom().contains(p) {
            let i = choose|i: int| stored_at(entries, i, p);
            assert(keys[i] == p);
        }
        if keys.to_set().contains(p) {
            let i = choose|i: int| 0 <= i < keys.len() && keys[i] == p;
            assert(stored_at(entries, i, p));
        }
    }
    assert(entries_map(entries).dom() =~= keys.to_set());
}

proof fn lemma_entry_in_map<H>(entries: Seq<(String, H)>, i: int)
    requires
        keys_distinct(entries),
        0 <= i < entries.len(),
    ensures
        entries_map(entries).contains_key(entries[i].0@),
        entries_map(entries)[entries[i].0@] == entries[i].1,
{
    let p = entries[i].0@;
    assert(stored_at(entries, i, p));
    let j = index_of(entries, p);
    assert(stored_at(entries, j, p));
    if j < i {
        assert(entries[j].0@ != entries[i].0@);
    } else if i < j {
        assert(entries[i].0@ != entries[j].0@);
    }
}

proof fn lemma_replace<H>(entries: Seq<(String, H)>, i: int, path: String, handler: H)
    requires
        keys_distinct(entries),
        stored_at(entries, i, path@),
    ensures
        keys_distinct(entries.update(i, (path, handler))),
        entries_map(entries.update(i, (path, handler))) == entries_map(entries).insert(
            path@,
            handler,
        ),
{
    let e2 = entries.update(i, (path, handler));
    assert(keys_distinct(e2)) by {
        assert forall|a: int, b: int| 0 <= a < b < e2.len() implies #[trigger] e2[a].0@
            != #[trigger] e2[b].0@ by {
            assert(e2[a].0@ == entries[a].0@);
            assert(e2[b].0@ == entries[b].0@);
        }
    }
    let m1 = entries_map(entries);
    let m2 = entries_map(e2);
    assert forall|p: Seq<char>| #[trigger] m2.contains_key(p) <==> m1.insert(path@, handler).contains_key(p) by {
        if m2.contains_key(p) {
            let j = choose|j: int| stored_at(e2, j, p);
            assert(stored_at(entries, j, p));
        }
        if m1.contains_key(p) {
            let j = choose|j: int| stored_at(entries, j, p);
            assert(stored_at(e2, j, p));
        }
        if p == path@ {
            assert(stored_at(e2, i, p));
        }
    }
    assert forall|p: Seq<char>| #[trigger] m2.contains_key(p) implies m2[p] == m1.insert(path@, handler)[p] by {
        let j = choose|j: int| stored_at(e2, j, p);
        lemma_entry_in_map(e2, j);
        if j != i {
            lemma_entry_in_map(entries, j);
        }
    }
    assert(m2 =~= m1.insert(path@, handler));
}

proof fn lemma_append<H>(entries: Seq<(String, H)>, path: String, handler: H)
    requires
        keys_distinct(entries),
        !entries_map(entries).contains_key(path@),
    ensures
        keys_distinct(entries.push((path, handler))),
        entries_map(entries.push((path, handler))) == entries_map(entries).insert(path@, handler),
{
    let e2 = entries.push((path, handler));
    let n = entries.len() as int;
    assert(keys_distinct(e2)) by {
        assert forall|a: int, b: int| 0 <= a < b < e2.len() implies #[trigger] e2[a].0@
            != #[trigger] e2[b].0@ by {
            if b == n {
                assert(stored_at(entries, a, e2[a].0@));
            }
        }
    }
    let m1 = entries_map(entries);
    let m2 = entries_map(e2);
    assert forall|p: Seq<char>| #[trigger] m2.contains_key(p) <==> m1.insert(path@, handler).contains_key(p) by {
        if m2.contains_key(p) {
            let j = choose|j: int| stored_at(e2, j, p);
            if j < n {
                assert(stored_at(entries, j, p));
            }
        }
        if m1.contains_key(p) {
            let j = choose|j: int| stored_at(entries, j, p);
            assert(stored_at(e2, j, p));
        }
        if p == path@ {
            assert(stored_at(e2, n, p));
        }
    }
    assert forall|p: Seq<char>| #[trigger] m2.contains_key(p) implies m2[p] == m1.insert(path@, handler)[p] by {
        let j = choose|j: int| stored_at(e2, j, p);
        lemma_entry_in_map(e2, j);
        if j < n {
            lemma_entry_in_map(entries, j);
        }
    }
    assert(m2 =~= m1.insert(path@, handler));
}

/// Handlers keyed by path.  No path occurs twice.
pub struct RouteTable<H> {
    entries: Vec<(String, H)>,
}

impl<H> RouteTable<H> {
    #[verifier::type_invariant]
    closed spec fn wf(self) -> bool {
        keys_distinct(self.entries@)
    }

    /// The handlers by path.
    pub closed spec fn map(self) -> Map<Seq<char>, H> {
        entries_map(self.entries@)
    }

    /// Every table holds finitely many paths.
    pub proof fn lemma_paths_finite(self)
        ensures
            self@.dom().finite(),
    {
        lemma_map_finite(self.entries@);
    }
}

impl<H> View for RouteTable<H> {
    type V = Map<Seq<char>, H>;

    open spec fn view(&self) -> Map<Seq<char>, H> {
        self.map()
    }
}

impl<H> RouteTable<H> {
    /// A table with no routes.
    pub fn new() -> (t: Self)
        ensures
            t@ == Map::<Seq<char>, H>::empty(),
            t@.dom().finite(),
    {
        let t = RouteTable { entries: Vec::new() };
        assert(t.map() =~= Map::<Seq<char>, H>::empty());
        t
    }

    /// The position of `path` in the table, if it is there.
    fn find(&self, path: &String) -> (res: Option<usize>)
        ensures
            match res {
                Some(i) => stored_at(self.entries@, i as int, path@),
                None => !self@.contains_key(path@),
            },
    {
        let mut i: usize = 0;
        while i < self.entries.len()
            invariant
                0 <= i <= self.entries@.len(),
                forall|j: int| 0 <= j < i ==> !stored_at(self.entries@, j, path@),
            decreases self.entries@.len() - i,
        {
            if self.entries[i].0 == *path {
                return Some(i);
            }
            i = i + 1;
        }
        None
    }

    /// The handler registered under exactly `path`.
    pub fn get(&self, path: &String) -> (res: Option<&H>)
        ensures
            match res {
                Some(h) => self@.contains_key(path@) && *h == self@[path@],
                None => !self@.contains_key(path@),
            },
    {
        proof {
            use_type_invariant(self);
        }
        match self.find(path) {
            Some(i) => {
                proof {
                    lemma_entry_in_map(self.entries@, i as int);
                }
                Some(&self.entries[i].1)
            },
            None => None,
        }
    }

    /// Stores `handler` under `path`, replacing a handler stored there before.
    pub fn insert(&mut self, path: String, handler: H)
        ensures
            final(self)@ == old(self)@.insert(path@, handler),
            final(self)@.dom().finite(),
    {
        proof {
            use_type_invariant(&*self);
        }
        match self.find(&path) {
            Some(i) => {
                let mut entries = Vec::new();
                std::mem::swap(&mut entries, &mut self.entries);
                proof {
                    lemma_replace(entries@, i as int, path, handler);
                }
                entries[i] = (path, handler);
                proof {
                    lemma_map_finite(entries@);
                }
                self.entries = entries;
            },
            None => {
                let mut entries = Vec::new();
                std::mem::swap(&mut entries, &mut self.entries);
                proof {
                    lemma_append(entries@, path, handler);
                }
                entries.push((path, handler));
                proof {
                    lemma_map_finite(entries@);
                }
                self.entries = entries;
            },
        }
    }

    /// Registers `handler` under `path`, with a `/` put in front of `path` when
    /// it has none.  Returns the path under which it is stored.
    pub fn add_route(&mut self, path: String, handler: H) -> (key: String)
        ensures
            key@ == normalized_path(path@),
            final(self)@ == old(self)@.insert(normalized_path(path@), handler),
            final(self)@.dom().finite(),
    {
        let key = normalize_route_path(path);
        self.insert(key.clone(), handler);
        key
    }
}

/// The status and body of an answer to a request.
pub struct Reply {
    pub status: u16,
    pub body: String,
}

/// The answer to a request whose path has no handler: `404 Route not found`.
pub fn not_found_reply() -> (r: Reply)
    ensures
        r.status == 404,
        r.body@ == "Route not found"@,
{
    Reply { status: 404, body: String::from_str("Route not found") }
}

/// The answer to a request once its handler has run: `200` with an empty body.
pub fn handled_reply() -> (r: Reply)
    ensures
        r.status == 200,
        r.body@ == Seq::<char>::empty(),
{
    Reply { status: 200, body: String::new() }
}

/// A path counts as starting with a slash exactly when its first character is
/// `/`; a path whose first character is not `/` (or that is empty) is stored as
/// `/` followed by the path, and any other path is stored as it is.
pub proof fn law_slash_rule(p: Seq<char>)
    ensures
        starts_with_slash(p) == (p.len() > 0 && p[0] == '/'),
        !(p.len() > 0 && p[0] == '/') ==> normalized_path(p) == seq!['/'] + p,
        p.len() > 0 && p[0] == '/' ==> normalized_path(p) == p,
        normalized_path(p).len() > 0 && normalized_path(p)[0] == '/',
{
}

/// After a handler is added under a path whose first character is not `/`,
/// it is found under `/` followed by that path, and the bare path itself finds
/// nothing new.
pub proof fn law_bare_path_found_with_slash<H>(table: Map<Seq<char>, H>, p: Seq<char>, h: H)
    requires
        !(p.len() > 0 && p[0] == '/'),
    ensures
        table.insert(normalized_path(p), h).contains_key(seq!['/'] + p),
        table.insert(normalized_path(p), h)[seq!['/'] + p] == h,
        table.insert(normalized_path(p), h).contains_key(p) == table.contains_key(p),
{
    assert(p != seq!['/'] + p) by {
        assert((seq!['/'] + p).len() == p.len() + 1);
    }
}

/// A stored path starts with `/`.
pub proof fn law_normalized_starts_with_slash(p: Seq<char>)
    ensures
        starts_with_slash(normalized_path(p)),
{
}

/// A path that starts with `/` is stored as it is.
pub proof fn law_normalize_keeps_slashed(p: Seq<char>)
    requires
        starts_with_slash(p),
    ensures
        normalized_path(p) == p,
{
}

/// Normalizing twice is normalizing once.
pub proof fn law_normalize_idempotent(p: Seq<char>)
    ensures
        normalized_path(normalized_path(p)) == normalized_path(p),
{
}

/// Normalizing only puts a `/` in front: the path is what follows it.
pub proof fn law_normalize_prepends(p: Seq<char>)
    ensures
        normalized_path(p) == p || normalized_path(p) == seq!['/'] + p,
        normalized_path(p).len() <= p.len() + 1,
{
}

/// `x` and `/x` name the same route.
pub proof fn law_slash_and_bare_same_route(p: Seq<char>)
    requires
        !starts_with_slash(p),
    ensures
        normalized_path(p) == normalized_path(seq!['/'] + p),
{
    assert((seq!['/'] + p)[0] == '/');
}

/// After a handler is added under `p`, a request for the stored form of `p`
/// finds that handler, and every other path finds what it found before.
pub proof fn law_lookup_after_add<H>(table: Map<Seq<char>, H>, p: Seq<char>, h: H, q: Seq<char>)
    ensures
        table.insert(normalized_path(p), h).contains_key(normalized_path(p)),
        table.insert(normalized_path(p), h)[normalized_path(p)] == h,
        q != normalized_path(p) ==> (table.insert(normalized_path(p), h).contains_key(q)
            == table.contains_key(q) && (table.contains_key(q) ==> table.insert(
            normalized_path(p),
            h,
        )[q] == table[q])),
{
}

/// Adding a handler adds one path to a table, unless its stored form was there.
pub proof fn law_add_route_count<H>(table: Map<Seq<char>, H>, p: Seq<char>, h: H)
    requires
        table.dom().finite(),
    ensures
        table.insert(normalized_path(p), h).dom().finite(),
        table.insert(normalized_path(p), h).dom().len() == table.dom().len() + (if table.contains_key(
            normalized_path(p),
        ) {
            0int
        } else {
            1int
        }),
{
    if table.contains_key(normalized_path(p)) {
        assert(table.insert(normalized_path(p), h).dom() =~= table.dom());
    }
}

/// Adding a second handler under the same path replaces the first.
pub proof fn law_add_replaces<H>(table: Map<Seq<char>, H>, p: Seq<char>, h1: H, h2: H)
    ensures
        table.insert(normalized_path(p), h1).insert(normalized_path(p), h2) == table.insert(
            normalized_path(p),
            h2,
        ),
{
    assert(table.insert(normalized_path(p), h1).insert(normalized_path(p), h2) =~= table.insert(
        normalized_path(p),
        h2,
    ));
}

} // verus!
