use vstd::prelude::*;

verus! {

/// The map that a listing of (workspace, output) pairs describes. A workspace
/// listed twice takes the output of its last entry.
pub open spec fn listing_map(listing: Seq<(String, String)>) -> Map<Seq<char>, Seq<char>>
    decreases listing.len(),
{
    if listing.len() == 0 {
        Map::empty()
    } else {
        let last = listing.last();
        listing_map(listing.drop_last()).insert(last.0@, last.1@)
    }
}

/// The output that hosts workspace `ws` in `m`, if `m` knows of it.
pub open spec fn output_in(m: Map<Seq<char>, Seq<char>>, ws: Seq<char>) -> Option<Seq<char>> {
    if m.contains_key(ws) {
        Some(m[ws])
    } else {
        None
    }
}

/// Which output displays which workspace, as it stood when the snapshot was
/// taken. It is never refreshed.
pub struct TopologySnapshot {
    listing: Vec<(String, String)>,
}

impl View for TopologySnapshot {
    type V = Map<Seq<char>, Seq<char>>;

    closed spec fn view(&self) -> Map<Seq<char>, Seq<char>> {
        listing_map(self.listing@)
    }
}

impl TopologySnapshot {
    /// Takes the snapshot from a listing of (workspace name, output name)
    /// pairs, as the window manager reports its workspaces.
    pub fn build(listing: Vec<(String, String)>) -> (r: TopologySnapshot)
        ensures
            r@ == listing_map(listing@),
    {
        TopologySnapshot { listing }
    }

    /// The output that hosts workspace `ws`, or `None` for a workspace that
    /// the snapshot does not know.
    pub fn output_of(&self, ws: &String) -> (r: Option<String>)
        ensures
            r matches Some(o) ==> output_in(self@, ws@) == Some(o@),
            r is None ==> output_in(self@, ws@) is None,
    {
        let mut found: Option<usize> = None;
        let mut i: usize = 0;
        while i < self.listing.len()
            invariant
                i <= self.listing@.len(),
                found matches Some(f) ==> f < i && self.listing@[f as int].0@ == ws@
                    && output_in(listing_map(self.listing@.take(i as int)), ws@) == Some(
                    self.listing@[f as int].1@,
                ),
                found is None ==> output_in(listing_map(self.listing@.take(i as int)), ws@) is None,
            decreases self.listing@.len() - i,
        {
            assert(self.listing@.take(i + 1).drop_last() == self.listing@.take(i as int));
            if self.listing[i].0 == *ws {
                found = Some(i);
            }
            i += 1;
        }
        assert(self.listing@.take(i as int) == self.listing@);
        match found {
            Some(f) => Some(self.listing[f].1.clone()),
            None => None,
        }
    }

    /// Whether workspaces `a` and `b` sit on the same output. Two workspaces
    /// that the snapshot does not know count as sharing one.
    pub fn same_output(&self, a: &String, b: &String) -> (r: bool)
        ensures
            r == (output_in(self@, a@) == output_in(self@, b@)),
    {
        let oa = self.output_of(a);
        let ob = self.output_of(b);
        match (oa, ob) {
            (Some(x), Some(y)) => x == y,
            (None, None) => true,
            _ => false,
        }
    }
}

} // verus!
