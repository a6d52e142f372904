use vstd::prelude::*;

verus! {

/// The ordered registry of shutdown hooks, each known by its name. Hooks are
/// only ever appended: once registered, a hook stays, at its position.
pub struct HookRegistry {
    names: Vec<String>,
}

impl View for HookRegistry {
    type V = Seq<Seq<char>>;

    closed spec fn view(&self) -> Seq<Seq<char>> {
        self.names@.map_values(|s: String| s@)
    }
}

impl HookRegistry {
    /// An empty registry.
    pub fn new() -> (r: HookRegistry)
        ensures
            r@ == Seq::<Seq<char>>::empty(),
    {
        let r = HookRegistry { names: Vec::new() };
        assert(r@ =~= Seq::<Seq<char>>::empty());
        r
    }

    /// Appends a hook after all those registered so far.
    pub fn register(&mut self, name: String)
        ensures
            final(self)@ == old(self)@.push(name@),
    {
        self.names.push(name);
        assert(final(self)@ =~= old(self)@.push(name@));
    }

    /// The number of hooks registered.
    pub fn len(&self) -> (r: usize)
        ensures
            r == self@.len(),
    {
        self.names.len()
    }

    /// The name of the hook at position `i`, in registration order.
    pub fn name(&self, i: usize) -> (r: String)
        requires
            i < self@.len(),
        ensures
            r@ == self@[i as int],
    {
        self.names[i].clone()
    }

    /// The registered names, in registration order.
    pub fn into_names(self) -> (r: Vec<String>)
        ensures
            r@.map_values(|s: String| s@) == self@,
    {
        self.names
    }
}

} // verus!
