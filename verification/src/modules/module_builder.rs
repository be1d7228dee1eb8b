//! The registry of host modules. A global initialiser runs on a new state
//! and installs globals; a preload entry makes a module loadable with
//! `require(name)`. Initialisers run in the order in which they were
//! registered. The registry is generic over the initialiser types, which
//! the host instantiates with functions over its Lua state.
use vstd::prelude::*;

verus! {

/// Global initialisers, in registration order.
pub struct GlobalAttachment<F> {
    functions: Vec<F>,
}

impl<F> View for GlobalAttachment<F> {
    type V = Seq<F>;

    closed spec fn view(&self) -> Seq<F> {
        self.functions@
    }
}

/// Runs `functions` on `state` in order and stops at the first failure.
/// `Ok` means each one returned `Ok`; an `Err` is what one of them returned,
/// and every one before it returned `Ok`.
pub fn run_in_order<L: ?Sized, E, F: Fn(&L) -> Result<(), E>>(functions: &Vec<F>, state: &L) -> (r: Result<(), E>)
    requires
        forall|i: int| 0 <= i < functions@.len() ==> (#[trigger] functions@[i]).requires((state,)),
    ensures
        r is Ok ==> forall|i: int|
            0 <= i < functions@.len() ==> (#[trigger] functions@[i]).ensures((state,), Ok(())),
        r matches Err(e) ==> exists|k: int|
            0 <= k < functions@.len() && (#[trigger] functions@[k]).ensures((state,), Err(e))
                && forall|i: int| 0 <= i < k ==> (#[trigger] functions@[i]).ensures((state,), Ok(())),
{
    let n = functions.len();
    let mut i: usize = 0;
    while i < n
        invariant
            n == functions@.len(),
            i <= n,
            forall|j: int| 0 <= j < functions@.len() ==> (#[trigger] functions@[j]).requires((state,)),
            forall|j: int| 0 <= j < i ==> (#[trigger] functions@[j]).ensures((state,), Ok(())),
        decreases n - i,
    {
        let f = &functions[i];
        let r = f(state);
        assert(functions@[i as int].ensures((state,), r));
        match r {
            Ok(u) => {
                assert(u == ());
                assert(r == Ok::<(), E>(()));
            },
            Err(e) => {
                return Err(e);
            },
        }
        i = i + 1;
    }
    Ok(())
}

impl<F> GlobalAttachment<F> {
    /// No initialiser.
    pub fn new() -> (g: Self)
        ensures
            g@ == Seq::<F>::empty(),
    {
        GlobalAttachment { functions: Vec::new() }
    }

    /// Registers `f` after the initialisers already registered.
    pub fn add_function(self, f: F) -> (g: Self)
        ensures
            g@ == self@.push(f),
    {
        let mut functions = self.functions;
        functions.push(f);
        GlobalAttachment { functions }
    }

    /// The initialisers, in registration order.
    pub fn functions(&self) -> (fs: &Vec<F>)
        ensures
            fs@ == self@,
    {
        &self.functions
    }

    /// Runs every initialiser on `state` in registration order and stops
    /// at the first failure; see [`run_in_order`].
    pub fn attach<L: ?Sized, E>(self, state: &L) -> (r: Result<(), E>)
        where F: Fn(&L) -> Result<(), E>
        requires
            forall|i: int| 0 <= i < self@.len() ==> (#[trigger] self@[i]).requires((state,)),
        ensures
            r is Ok ==> forall|i: int|
                0 <= i < self@.len() ==> (#[trigger] self@[i]).ensures((state,), Ok(())),
            r matches Err(e) ==> exists|k: int|
                0 <= k < self@.len() && (#[trigger] self@[k]).ensures((state,), Err(e))
                    && forall|i: int| 0 <= i < k ==> (#[trigger] self@[i]).ensures((state,), Ok(())),
    {
        assert(self@ == self.functions@);
        run_in_order(&self.functions, state)
    }
}

/// Preload entries: a module name and its loader, in registration order.
pub struct PreloadEntries<F> {
    entries: Vec<(&'static str, F)>,
}

impl<F> View for PreloadEntries<F> {
    type V = Seq<(&'static str, F)>;

    closed spec fn view(&self) -> Seq<(&'static str, F)> {
        self.entries@
    }
}

impl<F> PreloadEntries<F> {
    /// No entry.
    pub fn new() -> (p: Self)
        ensures
            p@ == Seq::<(&'static str, F)>::empty(),
    {
        PreloadEntries { entries: Vec::new() }
    }

    /// Registers the loader `f` under `name`, after the entries already
    /// registered.
    pub fn add_entry(self, name: &'static str, f: F) -> (p: Self)
        ensures
            p@ == self@.push((name, f)),
    {
        let mut entries = self.entries;
        entries.push((name, f));
        PreloadEntries { entries }
    }

    /// The entries, in registration order.
    pub fn entries(&self) -> (es: &Vec<(&'static str, F)>)
        ensures
            es@ == self@,
    {
        &self.entries
    }

    /// The entries, in registration order, taken out of the registry.
    pub fn into_entries(self) -> (es: Vec<(&'static str, F)>)
        ensures
            es@ == self@,
    {
        self.entries
    }

    /// Whether no entry is registered.
    pub fn is_empty(&self) -> (b: bool)
        ensures
            b == (self@.len() == 0),
    {
        self.entries.len() == 0
    }
}

/// The registry of host modules: global initialisers and preload entries.
pub struct ModuleBuilder<G, P> {
    globals: GlobalAttachment<G>,
    preloads: PreloadEntries<P>,
}

impl<G, P> ModuleBuilder<G, P> {
    /// The registered global initialisers.
    pub closed spec fn spec_globals(&self) -> Seq<G> {
        self.globals@
    }

    /// The registered preload entries.
    pub closed spec fn spec_preloads(&self) -> Seq<(&'static str, P)> {
        self.preloads@
    }

    /// An empty registry: a sandboxed runtime uses it.
    pub fn new() -> (b: Self)
        ensures
            b.spec_globals() == Seq::<G>::empty(),
            b.spec_preloads() == Seq::<(&'static str, P)>::empty(),
    {
        ModuleBuilder { globals: GlobalAttachment::new(), preloads: PreloadEntries::new() }
    }

    /// Registers a global initialiser after those already registered.
    pub fn with_global(self, f: G) -> (b: Self)
        ensures
            b.spec_globals() == self.spec_globals().push(f),
            b.spec_preloads() == self.spec_preloads(),
    {
        ModuleBuilder { globals: self.globals.add_function(f), preloads: self.preloads }
    }

    /// Registers a preload entry after those already registered.
    pub fn with_preload(self, name: &'static str, f: P) -> (b: Self)
        ensures
            b.spec_globals() == self.spec_globals(),
            b.spec_preloads() == self.spec_preloads().push((name, f)),
    {
        ModuleBuilder { globals: self.globals, preloads: self.preloads.add_entry(name, f) }
    }

    /// The modules a runtime with the behaviour `config` loads: none when it
    /// is sandboxed, else `full`.
    pub fn for_config(config: &crate::embed::config::LunaConfig, full: Self) -> (b: Self)
        ensures
            config.sandbox ==> b.spec_globals() == Seq::<G>::empty() && b.spec_preloads() == Seq::<
                (&'static str, P),
            >::empty(),
            !config.sandbox ==> b == full,
    {
        if config.sandbox {
            ModuleBuilder::new()
        } else {
            full
        }
    }

    /// The two halves of the registry.
    pub fn build(self) -> (parts: (GlobalAttachment<G>, PreloadEntries<P>))
        ensures
            parts.0@ == self.spec_globals(),
            parts.1@ == self.spec_preloads(),
    {
        (self.globals, self.preloads)
    }

    /// The global initialisers, without consuming the registry.
    pub fn globals(&self) -> (g: &GlobalAttachment<G>)
        ensures
            g@ == self.spec_globals(),
    {
        &self.globals
    }

    /// The preload entries, without consuming the registry.
    pub fn preloads(&self) -> (p: &PreloadEntries<P>)
        ensures
            p@ == self.spec_preloads(),
    {
        &self.preloads
    }
}

} // verus!
