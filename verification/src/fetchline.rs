//! A line of text made of the parts of a fact that are known.
use vstd::prelude::*;
use crate::modules::kernel::Kernel;
use crate::modules::model::Model;
use crate::text::join_with;

verus! {

/// The views of a sequence of optional strings, in the same order.
pub open spec fn option_views(items: Seq<Option<String>>) -> Seq<Option<Seq<char>>> {
    Seq::new(items.len(), |i: int| crate::text::option_view(items[i]))
}

/// The parts of `items` that are there, in their order.
pub open spec fn present(items: Seq<Option<Seq<char>>>) -> Seq<Seq<char>>
    decreases items.len(),
{
    if items.len() == 0 {
        Seq::empty()
    } else {
        match items.last() {
            Some(item) => present(items.drop_last()).push(item),
            None => present(items.drop_last()),
        }
    }
}

/// A fact whose text is made of parts, some of which may be unknown.
pub trait Fetchline {
    /// The parts of `v` that are there, in their order, with a blank
    /// between each two.
    fn gen_fetchline(&self, v: Vec<Option<String>>) -> (s: String)
        ensures
            s@ == join_with(present(option_views(v@)), seq![' ']),
    {
        let ghost items = option_views(v@);
        let mut index: usize = 0;
        let mut s = String::new();
        let mut i: usize = 0;
        while i < v.len()
            invariant
                i <= v.len(),
                items == option_views(v@),
                index == present(items.take(i as int)).len(),
                index <= i,
                s@ == join_with(present(items.take(i as int)), seq![' ']),
            decreases v.len() - i,
        {
            assert(items.take(i + 1).drop_last() =~= items.take(i as int));
            match &v[i] {
                Some(s2) => {
                    let ghost before = present(items.take(i as int));
                    if index > 0 {
                        s.push(' ');
                    }
                    s.append(s2.as_str());
                    index = index + 1;
                    assert(before.push(s2@).drop_last() =~= before);
                },
                None => {},
            }
            i = i + 1;
        }
        assert(items.take(i as int) =~= items);
        s
    }
}

impl Fetchline for Model {}

impl Fetchline for Kernel {}

} // verus!
