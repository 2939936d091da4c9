use crate::cause::Cause;
use vstd::prelude::*;

verus! {

/// A double-ended walk over an error's chain of causes, the outermost first.
#[derive(Clone, Copy)]
pub struct Chain<'a> {
    // innermost link first
    links: &'a [Cause],
    // the links still to be visited are those at chain positions front..back
    front: usize,
    back: usize,
}

impl<'a> Chain<'a> {
    #[verifier::type_invariant]
    spec fn inv(&self) -> bool {
        self.front <= self.back <= self.links@.len()
    }

    /// The links still to be visited, the outermost first.
    pub closed spec fn view(&self) -> Seq<Cause> {
        self.links@.reverse().subrange(self.front as int, self.back as int)
    }

    pub(crate) fn new(links: &'a [Cause]) -> (r: Chain<'a>)
        ensures
            r@ == links@.reverse(),
    {
        let r = Chain { links, front: 0, back: links.len() };
        assert(r@ =~= links@.reverse());
        r
    }

    /// Visits the outermost link left.
    pub fn next(&mut self) -> (r: Option<&'a Cause>)
        ensures
            r is None <==> old(self)@.len() == 0,
            r matches Some(c) ==> *c == old(self)@[0],
            r is Some ==> final(self)@ == old(self)@.drop_first(),
            r is Some ==> final(self)@.len() == old(self)@.len() - 1,
            r is None ==> final(self)@ == old(self)@,
    {
        proof {
            use_type_invariant(&*self);
        }
        if self.front < self.back {
            let n = self.links.len();
            let c = &self.links[n - 1 - self.front];
            let ghost before = self@;
            self.front = self.front + 1;
            assert(self@ =~= before.drop_first());
            Some(c)
        } else {
            None
        }
    }

    /// Visits the innermost link left.
    pub fn next_back(&mut self) -> (r: Option<&'a Cause>)
        ensures
            r is None <==> old(self)@.len() == 0,
            r matches Some(c) ==> *c == old(self)@.last(),
            r is Some ==> final(self)@ == old(self)@.drop_last(),
            r is Some ==> final(self)@.len() == old(self)@.len() - 1,
            r is None ==> final(self)@ == old(self)@,
    {
        proof {
            use_type_invariant(&*self);
        }
        if self.front < self.back {
            let n = self.links.len();
            let c = &self.links[n - self.back];
            let ghost before = self@;
            self.back = self.back - 1;
            assert(self@ =~= before.drop_last());
            Some(c)
        } else {
            None
        }
    }

    /// The number of links left.
    pub fn len(&self) -> (r: usize)
        ensures
            r == self@.len(),
    {
        proof {
            use_type_invariant(self);
        }
        self.back - self.front
    }

    /// Bounds on the number of links left, both exact.
    pub fn size_hint(&self) -> (r: (usize, Option<usize>))
        ensures
            r.0 == self@.len(),
            r.1 == Some(self@.len() as usize),
    {
        let n = self.len();
        (n, Some(n))
    }
}

impl<'a> Default for Chain<'a> {
    fn default() -> (r: Chain<'a>)
        ensures
            r@.len() == 0,
    {
        let links: &'a [Cause] = &[];
        Chain { links, front: 0, back: 0 }
    }
}

} // verus!
