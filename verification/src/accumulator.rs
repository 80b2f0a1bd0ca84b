use vstd::prelude::*;

verus! {

/// Per-render collector of the values that bound functions report while a
/// template evaluates. Exactly one render invocation owns an accumulator;
/// values are kept in invocation order.
pub struct Accumulator {
    values: Vec<String>,
}

impl View for Accumulator {
    type V = Seq<Seq<char>>;

    closed spec fn view(&self) -> Seq<Seq<char>> {
        self.values.deep_view()
    }
}

impl Accumulator {
    /// A fresh, empty accumulator.
    pub fn new() -> (r: Accumulator)
        ensures
            r@ == Seq::<Seq<char>>::empty(),
    {
        let r = Accumulator { values: Vec::new() };
        proof {
            assert(r@ =~= Seq::<Seq<char>>::empty());
        }
        r
    }

    /// How many values have been reported so far.
    pub fn len(&self) -> (n: usize)
        ensures
            n == self@.len(),
    {
        self.values.len()
    }

    /// Appends one reported value; nothing already collected is disturbed.
    pub fn report(&mut self, value: String)
        ensures
            final(self)@ == old(self)@.push(value@),
    {
        let ghost prev = self@;
        self.values.push(value);
        proof {
            assert(self@ =~= prev.push(value@));
        }
    }

    /// A read-only copy of everything reported so far, in invocation order.
    pub fn snapshot(&self) -> (r: Vec<String>)
        ensures
            r.deep_view() == self@,
    {
        broadcast use vstd::std_specs::vec::vec_clone_deep_view_proof;

        self.values.clone()
    }

    /// Hands out everything reported so far and leaves the accumulator empty.
    pub fn drain(&mut self) -> (r: Vec<String>)
        ensures
            r.deep_view() == old(self)@,
            final(self)@ == Seq::<Seq<char>>::empty(),
    {
        let mut taken: Vec<String> = Vec::new();
        std::mem::swap(&mut taken, &mut self.values);
        proof {
            assert(self@ =~= Seq::<Seq<char>>::empty());
        }
        taken
    }
}

} // verus!
