use vstd::prelude::*;

verus! {

/// The read-only input of one render call: a mapping of names to string
/// values, kept as entries in insertion order. When two entries share a name,
/// the later one is the one the template sees.
pub struct RenderContext {
    entries: Vec<(String, String)>,
}

impl View for RenderContext {
    type V = Seq<(Seq<char>, Seq<char>)>;

    closed spec fn view(&self) -> Seq<(Seq<char>, Seq<char>)> {
        self.entries.deep_view()
    }
}

impl RenderContext {
    /// An empty context.
    pub fn new() -> (r: RenderContext)
        ensures
            r@ == Seq::<(Seq<char>, Seq<char>)>::empty(),
    {
        let r = RenderContext { entries: Vec::new() };
        proof {
            assert(r@ =~= Seq::<(Seq<char>, Seq<char>)>::empty());
        }
        r
    }

    /// Adds one name-to-value entry.
    pub fn insert(&mut self, name: String, value: String)
        ensures
            final(self)@ == old(self)@.push((name@, value@)),
    {
        let ghost prev = self@;
        self.entries.push((name, value));
        proof {
            assert(self@ =~= prev.push((name@, value@)));
        }
    }

    /// How many entries the context holds.
    pub fn len(&self) -> (n: usize)
        ensures
            n == self@.len(),
    {
        self.entries.len()
    }

    /// Borrows the entries, for the trusted engine call that turns them into
    /// the engine's context value.
    pub(crate) fn entries(&self) -> (r: &Vec<(String, String)>)
        ensures
            r.deep_view() == self@,
    {
        &self.entries
    }
}

} // verus!
