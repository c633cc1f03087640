//! The endpoints to probe: logical name and URL, names unique.
use vstd::prelude::*;

verus! {

/// One endpoint to probe.
#[derive(Debug)]
pub struct EndpointConfig {
    pub name: String,
    pub url: String,
}

/// The endpoints to probe, each name at most once; the order of entries is
/// the order in which a cycle probes them.
pub struct Registry {
    pub entries: Vec<EndpointConfig>,
}

/// `m` with `name` mapped to the URL in `url`, where one is given.
pub open spec fn with_url(m: Map<Seq<char>, Seq<char>>, name: Seq<char>, url: Option<String>) -> Map<
    Seq<char>,
    Seq<char>,
> {
    match url {
        Some(u) => m.insert(name, u@),
        None => m,
    }
}

/// Whether two strings hold the same characters.
fn same_text(a: &String, b: &String) -> (r: bool)
    ensures
        r == (a@ == b@),
{
    *a == *b
}

impl Registry {
    /// The endpoint names, in probing order.
    pub open spec fn names(self) -> Seq<Seq<char>> {
        self.entries@.map_values(|e: EndpointConfig| e.name@)
    }

    /// No name occurs twice.
    pub open spec fn wf(self) -> bool {
        forall|i: int, j: int|
            0 <= i < j < self.entries@.len() ==> self.entries@[i].name@ != self.entries@[j].name@
    }

    /// The registry as a mapping from endpoint name to URL.
    pub open spec fn to_map(self) -> Map<Seq<char>, Seq<char>> {
        Map::new(
            |k: Seq<char>| exists|i: int| 0 <= i < self.entries@.len() && self.entries@[i].name@ == k,
            |k: Seq<char>|
                self.entries@[choose|i: int|
                    0 <= i < self.entries@.len() && self.entries@[i].name@ == k].url@,
        )
    }

    /// A registry without endpoints.
    pub fn new() -> (r: Registry)
        ensures
            r.wf(),
            r.entries@.len() == 0,
            r.to_map() == Map::<Seq<char>, Seq<char>>::empty(),
    {
        let r = Registry { entries: Vec::new() };
        assert(r.to_map() =~= Map::<Seq<char>, Seq<char>>::empty());
        r
    }

    /// Number of endpoints.
    pub fn len(&self) -> (r: usize)
        ensures
            r == self.entries@.len(),
    {
        self.entries.len()
    }

    /// Maps `name` to `url`: replaces the URL of an endpoint of that name,
    /// or else adds the endpoint at the end.
    pub fn insert(&mut self, name: String, url: String)
        requires
            old(self).wf(),
        ensures
            final(self).wf(),
            final(self).to_map() == old(self).to_map().insert(name@, url@),
    {
        let ghost n = name@;
        let ghost u = url@;
        let mut i: usize = 0;
        while i < self.entries.len()
            invariant
                self == old(self),
                name@ == n,
                url@ == u,
                old(self).wf(),
                i <= self.entries@.len(),
                forall|j: int| 0 <= j < i ==> self.entries@[j].name@ != n,
            decreases self.entries@.len() - i,
        {
            if same_text(&self.entries[i].name, &name) {
                let ghost before = self.entries@;
                assert(before[i as int].name@ == n);
                self.entries.set(i, EndpointConfig { name, url });
                let ghost after = self.entries@;
                assert(self.wf()) by {
                    assert forall|a: int, b: int| 0 <= a < b < after.len() implies after[a].name@
                        != after[b].name@ by {
                        if a != i && b != i {
                            assert(before[a].name@ == after[a].name@);
                            assert(before[b].name@ == after[b].name@);
                        } else if a == i {
                            assert(before[b].name@ == after[b].name@);
                        } else {
                            assert(before[a].name@ == after[a].name@);
                        }
                    }
                }
                assert(self.to_map() =~= old(self).to_map().insert(n, u)) by {
                    assert forall|k: Seq<char>| #[trigger] self.to_map().contains_key(k) implies
                        old(self).to_map().insert(n, u).contains_key(k) && self.to_map()[k]
                        == old(self).to_map().insert(n, u)[k] by {
                        let m = choose|m: int| 0 <= m < after.len() && after[m].name@ == k;
                        if k != n {
                            assert(before[m].name@ == k);
                            let m2 = choose|m2: int| 0 <= m2 < before.len() && before[m2].name@ == k;
                            assert(m == m2);
                        }
                    }
                    assert forall|k: Seq<char>|
                        #[trigger] old(self).to_map().insert(n, u).contains_key(k) implies self.to_map().contains_key(k) by {
                        if k != n {
                            let m = choose|m: int| 0 <= m < before.len() && before[m].name@ == k;
                            assert(after[m].name@ == k);
                        } else {
                            assert(after[i as int].name@ == k);
                        }
                    }
                }
                return;
            }
            i = i + 1;
        }
        let ghost before = self.entries@;
        self.entries.push(EndpointConfig { name, url });
        let ghost after = self.entries@;
        assert(self.wf()) by {
            assert forall|a: int, b: int| 0 <= a < b < after.len() implies after[a].name@
                != after[b].name@ by {
                if b < before.len() {
                    assert(before[a].name@ == after[a].name@);
                    assert(before[b].name@ == after[b].name@);
                }
            }
        }
        assert(self.to_map() =~= old(self).to_map().insert(n, u)) by {
            assert forall|k: Seq<char>| #[trigger] self.to_map().contains_key(k) implies
                old(self).to_map().insert(n, u).contains_key(k) && self.to_map()[k]
                == old(self).to_map().insert(n, u)[k] by {
                let m = choose|m: int| 0 <= m < after.len() && after[m].name@ == k;
                if k != n {
                    assert(before[m].name@ == k);
                    let m2 = choose|m2: int| 0 <= m2 < before.len() && before[m2].name@ == k;
                    assert(m == m2);
                } else {
                    assert(m == before.len());
                }
            }
            assert forall|k: Seq<char>|
                #[trigger] old(self).to_map().insert(n, u).contains_key(k) implies self.to_map().contains_key(k) by {
                if k != n {
                    let m = choose|m: int| 0 <= m < before.len() && before[m].name@ == k;
                    assert(after[m].name@ == k);
                } else {
                    assert(after[before.len() as int].name@ == k);
                }
            }
        }
    }

    /// Maps `name` to the URL in `url`, where one is given.
    pub fn insert_if_set(&mut self, name: &str, url: Option<String>)
        requires
            old(self).wf(),
        ensures
            final(self).wf(),
            final(self).to_map() == with_url(old(self).to_map(), name@, url),
    {
        match url {
            Some(u) => self.insert(name.to_owned(), u),
            None => {},
        }
    }
}

/// Registers the configured endpoint URLs in `map`: each URL that is given
/// is entered under its endpoint's name, replacing any earlier entry of that
/// name; those not given leave `map` as it was.
pub fn get_function_urls(
    map: Registry,
    lambda: Option<String>,
    vercel: Option<String>,
    lwa: Option<String>,
    hono: Option<String>,
    serverless_http: Option<String>,
) -> (r: Registry)
    requires
        map.wf(),
    ensures
        r.wf(),
        r.to_map() == with_url(
            with_url(
                with_url(with_url(with_url(map.to_map(), "aws"@, lambda), "vercel"@, vercel), "lwa"@, lwa),
                "hono"@,
                hono,
            ),
            "serverless_http"@,
            serverless_http,
        ),
{
    let mut map = map;
    map.insert_if_set("aws", lambda);
    map.insert_if_set("vercel", vercel);
    map.insert_if_set("lwa", lwa);
    map.insert_if_set("hono", hono);
    map.insert_if_set("serverless_http", serverless_http);
    map
}

} // verus!
