//! Handling the message having components
//!
//! Only link buttons can be cloned: other components would send their
//! interactions to the bot that clones. The shapes here say, for each
//! component of a message, what the filtering reads of it.

use vstd::prelude::*;

verus! {

/// What filtering reads of a top-level component
#[derive(Debug)]
pub struct ComponentShape {
    /// Whether the component is an action row
    pub is_action_row: bool,
    /// Whether the component, when not a row, is a link button
    pub is_link_button: bool,
    /// For a row, whether each of its components is a link button
    pub children_link: Vec<bool>,
}

/// A component kept for the clone: its position, and for a row the
/// positions of the components kept inside it
#[derive(Debug, PartialEq, Eq)]
pub struct KeptComponent {
    /// Position of the component among the message's components
    pub index: usize,
    /// Positions of the kept components in the row
    pub children: Vec<usize>,
}

/// Positions of the link buttons in a row, in order
pub open spec fn link_positions(links: Seq<bool>) -> Seq<int>
    decreases links.len(),
{
    if links.len() == 0 {
        Seq::empty()
    } else if links.last() {
        link_positions(links.drop_last()).push(links.len() - 1)
    } else {
        link_positions(links.drop_last())
    }
}

/// The components kept, as positions: a row is kept with its link buttons
/// when it has any, another component when it is a link button
pub open spec fn kept_spec(s: Seq<ComponentShape>) -> Seq<(int, Seq<int>)>
    decreases s.len(),
{
    if s.len() == 0 {
        Seq::empty()
    } else {
        let prev = kept_spec(s.drop_last());
        let c = s.last();
        if c.is_action_row {
            if link_positions(c.children_link@).len() > 0 {
                prev.push((s.len() - 1, link_positions(c.children_link@)))
            } else {
                prev
            }
        } else if c.is_link_button {
            prev.push((s.len() - 1, Seq::empty()))
        } else {
            prev
        }
    }
}

/// The kept components as positions
pub open spec fn kept_view(k: Seq<KeptComponent>) -> Seq<(int, Seq<int>)> {
    k.map_values(|c: KeptComponent| (c.index as int, c.children@.map_values(|i: usize| i as int)))
}

/// Whether filtering changes a component: a row without link buttons, a
/// row with another component, or a component that is no link button
pub open spec fn changes(c: ComponentShape) -> bool {
    if c.is_action_row {
        c.children_link@.len() == 0 || exists|j: int|
            0 <= j < c.children_link@.len() && !#[trigger] c.children_link@[j]
    } else {
        !c.is_link_button
    }
}

fn link_positions_exec(links: &Vec<bool>) -> (r: Vec<usize>)
    ensures
        r@.map_values(|i: usize| i as int) == link_positions(links@),
{
    let mut out: Vec<usize> = Vec::new();
    let mut i: usize = 0;
    while i < links.len()
        invariant
            i <= links.len(),
            out@.map_values(|k: usize| k as int) == link_positions(links@.take(i as int)),
        decreases links.len() - i,
    {
        proof {
            assert(links@.take(i + 1).drop_last() =~= links@.take(i as int));
        }
        let ghost before = out@;
        if links[i] {
            out.push(i);
            assert(out@.map_values(|k: usize| k as int) =~= before.map_values(|k: usize| k as int).push(
                i as int,
            ));
        }
        i = i + 1;
    }
    assert(links@.take(links.len() as int) =~= links@);
    out
}

/// The components to clone, as positions; see [`kept_spec`]
pub fn filter_valid(components: &Vec<ComponentShape>) -> (r: Vec<KeptComponent>)
    ensures
        kept_view(r@) == kept_spec(components@),
{
    let mut out: Vec<KeptComponent> = Vec::new();
    let mut i: usize = 0;
    while i < components.len()
        invariant
            i <= components.len(),
            kept_view(out@) == kept_spec(components@.take(i as int)),
        decreases components.len() - i,
    {
        proof {
            assert(components@.take(i + 1).drop_last() =~= components@.take(i as int));
        }
        let c = &components[i];
        let ghost before = out@;
        if c.is_action_row {
            let children = link_positions_exec(&c.children_link);
            if children.len() > 0 {
                out.push(KeptComponent { index: i, children });
                assert(kept_view(out@) =~= kept_view(before).push(
                    (i as int, link_positions(c.children_link@)),
                ));
            }
        } else if c.is_link_button {
            let children: Vec<usize> = Vec::new();
            assert(children@.map_values(|k: usize| k as int) =~= Seq::<int>::empty());
            out.push(KeptComponent { index: i, children });
            assert(kept_view(out@) =~= kept_view(before).push((i as int, Seq::empty())));
        }
        i = i + 1;
    }
    assert(components@.take(components.len() as int) =~= components@);
    out
}

/// Whether filtering drops or changes any component, so that the message
/// has components that can't be cloned
pub fn has_invalid_components(components: &Vec<ComponentShape>) -> (r: bool)
    ensures
        r == exists|i: int| 0 <= i < components@.len() && changes(#[trigger] components@[i]),
{
    let mut i: usize = 0;
    while i < components.len()
        invariant
            i <= components.len(),
            forall|k: int| 0 <= k < i ==> !changes(#[trigger] components@[k]),
        decreases components.len() - i,
    {
        let c = &components[i];
        if c.is_action_row {
            if c.children_link.len() == 0 {
                assert(changes(components@[i as int]));
                return true;
            }
            let mut j: usize = 0;
            while j < c.children_link.len()
                invariant
                    j <= c.children_link.len(),
                    i < components@.len(),
                    *c == components@[i as int],
                    c.is_action_row,
                    forall|k: int| 0 <= k < i ==> !changes(#[trigger] components@[k]),
                    forall|m: int| 0 <= m < j ==> #[trigger] c.children_link@[m],
                decreases c.children_link.len() - j,
            {
                if !c.children_link[j] {
                    assert(!components@[i as int].children_link@[j as int]);
                    assert(changes(components@[i as int]));
                    return true;
                }
                j = j + 1;
            }
        } else if !c.is_link_button {
            assert(changes(components@[i as int]));
            return true;
        }
        i = i + 1;
    }
    false
}

} // verus!
