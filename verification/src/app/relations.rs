//! Parent/child links between cards: attaching (refused when it would
//! make a card its own ancestor) and detaching, and what they keep.

use super::model::{
    card_index, is_descendant, lemma_new_edge_paths, lemma_new_edge_paths_from_child, lemma_reaches_monotone,
    reaches, EntityId, KanbanModel,
};
use vstd::prelude::*;

verus! {

/// Why a link was refused.
#[derive(Debug, Clone, Copy, PartialEq, Eq, Structural)]
pub enum RelationError {
    /// One of the two cards is not in the model.
    UnknownCard,
    /// A card cannot be its own parent.
    SelfReference,
    /// The cards are already linked that way.
    Duplicate,
    /// The child already is an ancestor of the parent.
    Cycle,
}

/// No card is its own descendant.
pub open spec fn acyclic(edges: Seq<(EntityId, EntityId)>) -> bool {
    forall|c: EntityId| !is_descendant(edges, c, c)
}

/// What linking `child` under `parent` gives: the first reason to refuse,
/// else success.
pub open spec fn attach_outcome(model: KanbanModel, parent: EntityId, child: EntityId) -> Result<(), RelationError> {
    if card_index(model.cards@, parent).is_none() || card_index(model.cards@, child).is_none() {
        Err(RelationError::UnknownCard)
    } else if parent == child {
        Err(RelationError::SelfReference)
    } else if model.edges@.contains((parent, child)) {
        Err(RelationError::Duplicate)
    } else if is_descendant(model.edges@, child, parent) {
        Err(RelationError::Cycle)
    } else {
        Ok(())
    }
}

/// The edges without any `parent -> child` link.
pub open spec fn without_edge(edges: Seq<(EntityId, EntityId)>, parent: EntityId, child: EntityId) -> Seq<
    (EntityId, EntityId),
> {
    edges.filter(|e: (EntityId, EntityId)| e != (parent, child))
}

/// A path of `n` steps followed by a path of `m` steps is a path.
pub proof fn lemma_reaches_trans(
    edges: Seq<(EntityId, EntityId)>,
    a: EntityId,
    b: EntityId,
    c: EntityId,
    n: nat,
    m: nat,
)
    requires
        reaches(edges, a, b, n),
        reaches(edges, b, c, m),
    ensures
        reaches(edges, a, c, n + m),
    decreases n,
{
    let i = choose|i: int|
        0 <= i < edges.len() && (#[trigger] edges[i]).0 == a && (edges[i].1 == b || reaches(
            edges,
            edges[i].1,
            b,
            (n - 1) as nat,
        ));
    let w = edges[i].1;
    if w == b {
        lemma_reaches_monotone(edges, b, c, m, (n + m - 1) as nat);
        assert(reaches(edges, w, c, (n + m - 1) as nat));
    } else {
        lemma_reaches_trans(edges, w, b, c, (n - 1) as nat, m);
        assert(reaches(edges, w, c, (n - 1 + m) as nat));
    }
}

/// Linking `child` under `parent` keeps an acyclic graph acyclic, unless
/// the child already is `parent` or one of its ancestors.
pub proof fn law_attach_keeps_graph_acyclic(edges: Seq<(EntityId, EntityId)>, parent: EntityId, child: EntityId)
    requires
        acyclic(edges),
        parent != child,
        !is_descendant(edges, child, parent),
    ensures
        acyclic(edges.push((parent, child))),
{
    let new_edges = edges.push((parent, child));
    assert forall|x: EntityId| !is_descendant(new_edges, x, x) by {
        if is_descendant(new_edges, x, x) {
            let n = choose|n: nat| reaches(new_edges, x, x, n);
            lemma_new_edge_paths(edges, parent, child, x, x, n);
            lemma_new_edge_paths_from_child(edges, parent, child, x, x, n);
            // x reaches parent (or is it), and child reaches x (or is it).
            if x == parent {
                if child != x {
                    assert(is_descendant(edges, child, x));
                }
            } else {
                assert(is_descendant(edges, x, parent));
                if child != x {
                    let k = choose|k: nat| reaches(edges, child, x, k);
                    let l = choose|l: nat| reaches(edges, x, parent, l);
                    lemma_reaches_trans(edges, child, x, parent, k, l);
                }
            }
        }
    }
}

/// A path over fewer edges is a path over more.
proof fn lemma_reaches_subgraph(
    small: Seq<(EntityId, EntityId)>,
    big: Seq<(EntityId, EntityId)>,
    from: EntityId,
    to: EntityId,
    n: nat,
)
    requires
        reaches(small, from, to, n),
        forall|e: (EntityId, EntityId)| small.contains(e) ==> big.contains(e),
    ensures
        reaches(big, from, to, n),
    decreases n,
{
    let i = choose|i: int|
        0 <= i < small.len() && (#[trigger] small[i]).0 == from && (small[i].1 == to || reaches(
            small,
            small[i].1,
            to,
            (n - 1) as nat,
        ));
    assert(small.contains(small[i]));
    let j = choose|j: int| 0 <= j < big.len() && big[j] == small[i];
    if small[i].1 != to {
        lemma_reaches_subgraph(small, big, small[i].1, to, (n - 1) as nat);
    }
    assert(big[j].0 == from);
}

/// Unlinking keeps an acyclic graph acyclic.
pub proof fn law_detach_keeps_graph_acyclic(edges: Seq<(EntityId, EntityId)>, parent: EntityId, child: EntityId)
    requires
        acyclic(edges),
    ensures
        acyclic(without_edge(edges, parent, child)),
{
    let small = without_edge(edges, parent, child);
    assert forall|e: (EntityId, EntityId)| small.contains(e) implies edges.contains(e) by {
        edges.lemma_filter_contains_rev(|e: (EntityId, EntityId)| e != (parent, child), e);
    }
    assert forall|x: EntityId| !is_descendant(small, x, x) by {
        if is_descendant(small, x, x) {
            let n = choose|n: nat| reaches(small, x, x, n);
            lemma_reaches_subgraph(small, edges, x, x, n);
            assert(is_descendant(edges, x, x));
        }
    }
}

proof fn lemma_filter_keeps_all(s: Seq<(EntityId, EntityId)>, p: spec_fn((EntityId, EntityId)) -> bool)
    requires
        forall|i: int| 0 <= i < s.len() ==> p(s[i]),
    ensures
        s.filter(p) == s,
    decreases s.len(),
{
    if s.len() > 0 {
        let rest = s.drop_last();
        assert forall|i: int| 0 <= i < rest.len() implies p(rest[i]) by {
            assert(rest[i] == s[i]);
        }
        lemma_filter_keeps_all(rest, p);
        rest.lemma_filter_push(s.last(), p);
        assert(p(s[s.len() - 1]));
        assert(rest.push(s.last()) =~= s);
    }
}

/// Unlinking what was just linked gives the links back.
pub proof fn law_detach_undoes_attach(edges: Seq<(EntityId, EntityId)>, parent: EntityId, child: EntityId)
    requires
        !edges.contains((parent, child)),
    ensures
        without_edge(edges.push((parent, child)), parent, child) == edges,
{
    let p = |e: (EntityId, EntityId)| e != (parent, child);
    edges.lemma_filter_push((parent, child), p);
    assert forall|i: int| 0 <= i < edges.len() implies p(edges[i]) by {
        if edges[i] == (parent, child) {
            assert(edges.contains((parent, child)));
        }
    }
    lemma_filter_keeps_all(edges, p);
}

impl KanbanModel {
    /// Links `child` under `parent`, unless a card is missing, the link is
    /// to itself, already there, or would make a cycle.
    pub fn attach_child(&mut self, parent: EntityId, child: EntityId) -> (r: Result<(), RelationError>)
        ensures
            r == attach_outcome(*old(self), parent, child),
            r is Ok ==> final(self).edges@ == old(self).edges@.push((parent, child)),
            r is Err ==> *final(self) == *old(self),
            final(self).boards == old(self).boards,
            final(self).columns == old(self).columns,
            final(self).cards == old(self).cards,
            final(self).archived_cards == old(self).archived_cards,
            final(self).sprints == old(self).sprints,
    {
        if self.card_by_id(parent).is_none() || self.card_by_id(child).is_none() {
            return Err(RelationError::UnknownCard);
        }
        if parent == child {
            return Err(RelationError::SelfReference);
        }
        let mut i: usize = 0;
        while i < self.edges.len()
            invariant
                i <= self.edges@.len(),
                forall|j: int| 0 <= j < i ==> self.edges@[j] != (parent, child),
                card_index(self.cards@, parent).is_some(),
                card_index(self.cards@, child).is_some(),
                parent != child,
            decreases self.edges@.len() - i,
        {
            if self.edges[i].0 == parent && self.edges[i].1 == child {
                proof {
                    assert(self.edges@[i as int] == (parent, child));
                    assert(self.edges@.contains((parent, child)));
                }
                return Err(RelationError::Duplicate);
            }
            i = i + 1;
        }
        proof {
            if self.edges@.contains((parent, child)) {
                let j = choose|j: int| 0 <= j < self.edges@.len() && self.edges@[j] == (parent, child);
                assert(self.edges@[j] != (parent, child));
            }
        }
        let below = super::model::descendants(&self.edges, child);
        if super::model::contains_id(&below, parent) {
            assert(is_descendant(self.edges@, child, parent));
            return Err(RelationError::Cycle);
        }
        assert(!is_descendant(self.edges@, child, parent));
        self.edges.push((parent, child));
        Ok(())
    }

    /// Removes every `parent -> child` link.
    pub fn detach_child(&mut self, parent: EntityId, child: EntityId)
        ensures
            final(self).edges@ == without_edge(old(self).edges@, parent, child),
            final(self).boards == old(self).boards,
            final(self).columns == old(self).columns,
            final(self).cards == old(self).cards,
            final(self).archived_cards == old(self).archived_cards,
            final(self).sprints == old(self).sprints,
    {
        let ghost src = self.edges@;
        let ghost p = |e: (EntityId, EntityId)| e != (parent, child);
        let mut kept: Vec<(EntityId, EntityId)> = Vec::new();
        let mut i: usize = 0;
        while i < self.edges.len()
            invariant
                i <= src.len(),
                self.edges@ == src,
                p == (|e: (EntityId, EntityId)| e != (parent, child)),
                kept@ == src.take(i as int).filter(p),
            decreases src.len() - i,
        {
            let e = self.edges[i];
            proof {
                assert(src.take(i + 1) =~= src.take(i as int).push(e));
                src.take(i as int).lemma_filter_push(e, p);
            }
            if !(e.0 == parent && e.1 == child) {
                kept.push(e);
            }
            i = i + 1;
        }
        proof {
            assert(src.take(src.len() as int) =~= src);
        }
        self.edges = kept;
    }
}

} // verus!
