use vstd::prelude::*;

verus! {

/// The two ends of a line or a transformer of the grid: it carries power
/// from bus `from` to bus `to`.
#[derive(Debug, Clone, Copy, PartialEq, Eq, Structural)]
pub struct Link {
    pub id: usize,
    pub from: usize,
    pub to: usize,
}

/// `links[i]` is the first link of `links` that ends at bus `bus_id`.
pub open spec fn is_first_link_to(links: Seq<Link>, bus_id: usize, i: int) -> bool {
    &&& 0 <= i < links.len()
    &&& links[i].to == bus_id
    &&& forall|j: int| 0 <= j < i ==> #[trigger] links[j].to != bus_id
}

/// No link of `links` ends at bus `bus_id`.
pub open spec fn no_link_to(links: Seq<Link>, bus_id: usize) -> bool {
    forall|j: int| 0 <= j < links.len() ==> #[trigger] links[j].to != bus_id
}

/// What a search for the link that supplies bus `bus_id` finds.
pub open spec fn link_search_result(links: Seq<Link>, bus_id: usize, res: Option<usize>) -> bool {
    match res {
        Some(i) => is_first_link_to(links, bus_id, i as int),
        None => no_link_to(links, bus_id),
    }
}

/// Index of the first link of `links` that ends at bus `bus_id`, if any.
pub fn first_link_to(links: &Vec<Link>, bus_id: usize) -> (res: Option<usize>)
    ensures
        link_search_result(links@, bus_id, res),
{
    let mut i: usize = 0;
    while i < links.len()
        invariant
            i <= links.len(),
            no_link_to(links@.take(i as int), bus_id),
        decreases links.len() - i,
    {
        if links[i].to == bus_id {
            assert forall|j: int| 0 <= j < i implies #[trigger] links@[j].to != bus_id by {
                assert(links@.take(i as int)[j] == links@[j]);
            }
            return Some(i);
        }
        assert forall|j: int| 0 <= j < i + 1 implies #[trigger] links@.take(i + 1)[j].to
            != bus_id by {
            if j < i {
                assert(links@.take(i + 1)[j] == links@.take(i as int)[j]);
            }
        }
        i = i + 1;
    }
    assert(links@.take(i as int) =~= links@);
    None
}

/// Which lines and transformers of the grid end at which bus.
pub struct GridTopology {
    /// The medium-voltage lines, in the grid's order.
    pub lines: Vec<Link>,
    /// The transformation centres, in the grid's order.
    pub transformers: Vec<Link>,
}

impl GridTopology {
    pub fn new(lines: Vec<Link>, transformers: Vec<Link>) -> (res: Self)
        ensures
            res.lines@ == lines@,
            res.transformers@ == transformers@,
    {
        GridTopology { lines, transformers }
    }

    /// Index of the transformer that supplies energy to bus `bus_id`: the
    /// first one that ends there.
    pub fn transformer_for(&self, bus_id: usize) -> (res: Option<usize>)
        ensures
            link_search_result(self.transformers@, bus_id, res),
    {
        first_link_to(&self.transformers, bus_id)
    }

    /// Index of the line that is assigned to bus `bus_id`: the first one that
    /// ends there.
    pub fn line_for(&self, bus_id: usize) -> (res: Option<usize>)
        ensures
            link_search_result(self.lines@, bus_id, res),
    {
        first_link_to(&self.lines, bus_id)
    }
}

/// A search finds a link exactly when some link ends at the bus, and what it
/// finds ends there.
pub proof fn lemma_link_found_iff_present(links: Seq<Link>, bus_id: usize, res: Option<usize>)
    requires
        link_search_result(links, bus_id, res),
    ensures
        res is Some <==> exists|j: int| 0 <= j < links.len() && #[trigger] links[j].to == bus_id,
        res matches Some(i) ==> links[i as int].to == bus_id,
{
    if let Some(i) = res {
        assert(links[i as int].to == bus_id);
    }
}

/// The search for a bus's supplier does not depend on the run: two searches
/// over the same links for the same bus find the same link.
pub proof fn lemma_link_search_unique(
    links: Seq<Link>,
    bus_id: usize,
    res1: Option<usize>,
    res2: Option<usize>,
)
    requires
        link_search_result(links, bus_id, res1),
        link_search_result(links, bus_id, res2),
    ensures
        res1 == res2,
{
    match (res1, res2) {
        (Some(i), Some(k)) => {
            if i < k {
                assert(links[i as int].to == bus_id);
            } else if k < i {
                assert(links[k as int].to == bus_id);
            }
        },
        (Some(i), None) => {
            assert(links[i as int].to == bus_id);
        },
        (None, Some(k)) => {
            assert(links[k as int].to == bus_id);
        },
        (None, None) => {},
    }
}

} // verus!
