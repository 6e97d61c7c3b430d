//! The style registry: compiled stylesheet fragments in registration order.

use vstd::prelude::*;
use vstd::string::StringExecFns;

verus! {

/// The aggregate stylesheet of `fragments`: the fragments in order, with a
/// single newline between each two neighbours.
pub open spec fn joined(fragments: Seq<Seq<char>>) -> Seq<char>
    decreases fragments.len(),
{
    if fragments.len() == 0 {
        Seq::empty()
    } else if fragments.len() == 1 {
        fragments[0]
    } else {
        joined(fragments.drop_last()) + seq!['\n'] + fragments.last()
    }
}

/// An ordered collection of compiled stylesheet fragments.
///
/// Fragments are only ever added at the end, so the order is the order of
/// registration.
pub struct CssCollection {
    fragments: Vec<String>,
}

impl View for CssCollection {
    type V = Seq<Seq<char>>;

    /// The registered fragments, oldest first.
    closed spec fn view(&self) -> Seq<Seq<char>> {
        self.fragments@.map_values(|fragment: String| fragment@)
    }
}

impl CssCollection {
    /// An empty collection.
    pub fn new() -> (collection: Self)
        ensures
            collection@ == Seq::<Seq<char>>::empty(),
    {
        let collection = CssCollection { fragments: Vec::new() };
        assert(collection@ =~= Seq::<Seq<char>>::empty());
        collection
    }

    /// Adds `css` behind every fragment registered so far.
    pub fn register(&mut self, css: String)
        ensures
            final(self)@ == old(self)@.push(css@),
    {
        self.fragments.push(css);
        assert(self@ =~= old(self)@.push(css@));
    }

    /// The aggregate stylesheet: all registered fragments in registration
    /// order, separated by single newlines.
    pub fn get_css(&self) -> (css: String)
        ensures
            css@ == joined(self@),
    {
        let mut css = String::new();
        let mut i: usize = 0;
        while i < self.fragments.len()
            invariant
                i <= self.fragments.len(),
                css@ == joined(self@.take(i as int)),
            decreases self.fragments.len() - i,
        {
            proof {
                reveal_strlit("\n");
                let done = self@.take(i as int);
                let next = self@.take(i + 1);
                assert(next.drop_last() =~= done);
                assert(next.last() == self.fragments[i as int]@);
                assert("\n"@ =~= seq!['\n']);
            }
            if i > 0 {
                css.append("\n");
            }
            css.append(self.fragments[i].as_str());
            i += 1;
        }
        assert(self@.take(i as int) =~= self@);
        css
    }
}

} // verus!
