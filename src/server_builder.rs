//! Configuration of an RPC server: its methods, the pipe name it binds and
//! the size of the pool that serves its connections.
use vstd::prelude::*;

verus! {

/// Why a server could not be built.
#[derive(Clone, Copy, Debug, PartialEq, Eq, Structural)]
pub enum BuildServerError {
    /// No pipe name was bound.
    NoIpcIdSpecified,
}

/// Relies on `num_cpus::get`: the number of CPUs this process may run on.
/// Nothing is assumed of the value.
#[verifier::external_body]
fn available_cpus() -> usize {
    num_cpus::get()
}

/// No two entries of a method table share a name.
pub open spec fn names_unique<F>(v: Seq<(String, F)>) -> bool {
    forall|i: int, j: int|
        0 <= i < v.len() && 0 <= j < v.len() && i != j ==> #[trigger] v[i].0@ != #[trigger] v[j].0@
}

/// The handler that a method table holds under each name.
pub open spec fn table_of<F>(v: Seq<(String, F)>) -> Map<Seq<char>, F> {
    Map::new(
        |k: Seq<char>| exists|i: int| 0 <= i < v.len() && #[trigger] v[i].0@ == k,
        |k: Seq<char>| v[choose|i: int| 0 <= i < v.len() && #[trigger] v[i].0@ == k].1,
    )
}

/// Replacing the entry at `i` with one of the same name gives the table that
/// holds the new handler under that name.
proof fn lemma_table_update<F>(v: Seq<(String, F)>, i: int, e: (String, F))
    requires
        names_unique(v),
        0 <= i < v.len(),
        v[i].0@ == e.0@,
    ensures
        names_unique(v.update(i, e)),
        table_of(v.update(i, e)) == table_of(v).insert(e.0@, e.1),
{
    let w = v.update(i, e);
    assert forall|a: int, b: int|
        0 <= a < w.len() && 0 <= b < w.len() && a != b implies #[trigger] w[a].0@
        != #[trigger] w[b].0@ by {
        assert(w[a].0@ == v[a].0@);
        assert(w[b].0@ == v[b].0@);
    }
    assert forall|k: Seq<char>| #[trigger] table_of(w).contains_key(k) == table_of(v).insert(
        e.0@,
        e.1,
    ).contains_key(k) by {
        if exists|j: int| 0 <= j < v.len() && #[trigger] v[j].0@ == k {
            let j = choose|j: int| 0 <= j < v.len() && #[trigger] v[j].0@ == k;
            assert(w[j].0@ == k);
        }
        if exists|j: int| 0 <= j < w.len() && #[trigger] w[j].0@ == k {
            let j = choose|j: int| 0 <= j < w.len() && #[trigger] w[j].0@ == k;
            assert(v[j].0@ == k);
        }
        if k == e.0@ {
            assert(w[i].0@ == k);
        }
    }
    assert forall|k: Seq<char>| #[trigger]
        table_of(w).contains_key(k) implies table_of(w)[k] == table_of(v).insert(e.0@, e.1)[k] by {
        let j = choose|j: int| 0 <= j < w.len() && #[trigger] w[j].0@ == k;
        if k == e.0@ {
            assert(w[i].0@ == k);
        } else {
            assert(v[j].0@ == k);
        }
    }
    assert(table_of(w) =~= table_of(v).insert(e.0@, e.1));
}

/// A method table with a new name appended holds the new handler under it.
proof fn lemma_table_push<F>(v: Seq<(String, F)>, e: (String, F))
    requires
        names_unique(v),
        forall|j: int| 0 <= j < v.len() ==> #[trigger] v[j].0@ != e.0@,
    ensures
        names_unique(v.push(e)),
        table_of(v.push(e)) == table_of(v).insert(e.0@, e.1),
{
    let w = v.push(e);
    assert forall|a: int, b: int|
        0 <= a < w.len() && 0 <= b < w.len() && a != b implies #[trigger] w[a].0@
        != #[trigger] w[b].0@ by {
        if a < v.len() {
            assert(w[a] == v[a]);
        }
        if b < v.len() {
            assert(w[b] == v[b]);
        }
    }
    assert forall|k: Seq<char>| #[trigger] table_of(w).contains_key(k) == table_of(v).insert(
        e.0@,
        e.1,
    ).contains_key(k) by {
        if exists|j: int| 0 <= j < v.len() && #[trigger] v[j].0@ == k {
            let j = choose|j: int| 0 <= j < v.len() && #[trigger] v[j].0@ == k;
            assert(w[j].0@ == k);
        }
        if exists|j: int| 0 <= j < w.len() && #[trigger] w[j].0@ == k {
            let j = choose|j: int| 0 <= j < w.len() && #[trigger] w[j].0@ == k;
            if j < v.len() {
                assert(v[j].0@ == k);
            }
        }
        if k == e.0@ {
            assert(w[v.len() as int].0@ == k);
        }
    }
    assert forall|k: Seq<char>| #[trigger]
        table_of(w).contains_key(k) implies table_of(w)[k] == table_of(v).insert(e.0@, e.1)[k] by {
        let j = choose|j: int| 0 <= j < w.len() && #[trigger] w[j].0@ == k;
        if k == e.0@ {
            assert(w[v.len() as int].0@ == k);
        } else {
            assert(v[j].0@ == k);
            let j2 = choose|j2: int| 0 <= j2 < v.len() && #[trigger] v[j2].0@ == k;
            assert(w[j2] == v[j2]);
        }
    }
    assert(table_of(w) =~= table_of(v).insert(e.0@, e.1));
}

/// The pieces of a server, gathered one call at a time.
pub struct ServerBuilder<F> {
    unary_methods: Vec<(String, F)>,
    ipc_id: Option<String>,
    thread_pool_size: usize,
}

/// A server ready to start.
pub struct Server<F> {
    pub unary_methods: Vec<(String, F)>,
    pub ipc_id: String,
    pub thread_pool_size: usize,
}

impl<F> Server<F> {
    /// The handler of each unary method, by name.
    pub open spec fn methods(&self) -> Map<Seq<char>, F> {
        table_of(self.unary_methods@)
    }
}

impl<F> ServerBuilder<F> {
    /// The handler of each unary method, by name.
    pub closed spec fn methods(&self) -> Map<Seq<char>, F> {
        table_of(self.unary_methods@)
    }

    /// The pipe name bound so far.
    pub closed spec fn ipc_id(&self) -> Option<Seq<char>> {
        match self.ipc_id {
            Some(id) => Some(id@),
            None => None,
        }
    }

    /// How many threads will serve connections.
    pub closed spec fn pool_size(&self) -> usize {
        self.thread_pool_size
    }

    pub closed spec fn wf(&self) -> bool {
        names_unique(self.unary_methods@)
    }

    /// A builder with no methods and no name, and a pool of one thread per
    /// available CPU.
    pub fn new() -> (b: ServerBuilder<F>)
        ensures
            b.wf(),
            b.methods() == Map::<Seq<char>, F>::empty(),
            b.ipc_id() is None,
    {
        let b = ServerBuilder { unary_methods: Vec::new(), ipc_id: None, thread_pool_size: available_cpus() };
        assert(b.methods() =~= Map::<Seq<char>, F>::empty());
        b
    }

    /// Serves unary method `method` with `callback`, in place of any handler
    /// it had.
    pub fn add_unary_method(self, method: &str, callback: F) -> (b: ServerBuilder<F>)
        requires
            self.wf(),
        ensures
            b.wf(),
            b.methods() == self.methods().insert(method@, callback),
            b.ipc_id() == self.ipc_id(),
            b.pool_size() == self.pool_size(),
    {
        let ServerBuilder { mut unary_methods, ipc_id, thread_pool_size } = self;
        let key = method.to_owned();
        let mut i: usize = 0;
        while i < unary_methods.len()
            invariant
                names_unique(unary_methods@),
                unary_methods@ == self.unary_methods@,
                key@ == method@,
                ipc_id == self.ipc_id,
                thread_pool_size == self.thread_pool_size,
                i <= unary_methods.len(),
                forall|j: int| 0 <= j < i ==> #[trigger] unary_methods@[j].0@ != key@,
            decreases unary_methods.len() - i,
        {
            if unary_methods[i].0 == key {
                proof {
                    lemma_table_update(unary_methods@, i as int, (key, callback));
                }
                unary_methods.set(i, (key, callback));
                return ServerBuilder { unary_methods, ipc_id, thread_pool_size };
            }
            i = i + 1;
        }
        proof {
            lemma_table_push(unary_methods@, (key, callback));
        }
        unary_methods.push((key, callback));
        ServerBuilder { unary_methods, ipc_id, thread_pool_size }
    }

    /// Serves connections with a pool of `n` threads.
    pub fn thread_pool_size(self, n: usize) -> (b: ServerBuilder<F>)
        requires
            self.wf(),
        ensures
            b.wf(),
            b.pool_size() == n,
            b.methods() == self.methods(),
            b.ipc_id() == self.ipc_id(),
    {
        ServerBuilder { unary_methods: self.unary_methods, ipc_id: self.ipc_id, thread_pool_size: n }
    }

    /// Binds the server to the pipe called `ipc_id`.
    pub fn bind(self, ipc_id: &str) -> (b: ServerBuilder<F>)
        requires
            self.wf(),
        ensures
            b.wf(),
            b.ipc_id() == Some(ipc_id@),
            b.methods() == self.methods(),
            b.pool_size() == self.pool_size(),
    {
        ServerBuilder {
            unary_methods: self.unary_methods,
            ipc_id: Some(ipc_id.to_owned()),
            thread_pool_size: self.thread_pool_size,
        }
    }

    /// The server, once a pipe name has been bound.
    pub fn build(self) -> (r: Result<Server<F>, BuildServerError>)
        requires
            self.wf(),
        ensures
            self.ipc_id() is None ==> r is Err && r->Err_0 == BuildServerError::NoIpcIdSpecified,
            self.ipc_id() is Some ==> r is Ok && r->Ok_0.ipc_id@ == self.ipc_id()->0
                && r->Ok_0.methods() == self.methods() && r->Ok_0.thread_pool_size
                == self.pool_size(),
    {
        let ipc_id = match self.ipc_id {
            Some(id) => id,
            None => {
                return Err(BuildServerError::NoIpcIdSpecified);
            },
        };
        Ok(Server { unary_methods: self.unary_methods, ipc_id, thread_pool_size: self.thread_pool_size })
    }
}

} // verus!
