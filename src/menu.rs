//! Layout of a native application menu: which command id each action gets
//! and where each entry stands. Each action carries its payload (a callback,
//! say) into the layout, so a platform layer that builds the actual menu can
//! map command ids back to what they trigger.
use vstd::prelude::*;

verus! {

broadcast use vstd::std_specs::vec::group_vec_axioms;

/// One item of a menu description; an action carries `action`.
#[derive(Debug)]
pub enum MenuItem<A> {
    Divider,
    Action { title: String, action: A },
    SubMenu { title: String, items: Vec<MenuItem<A>> },
}

/// One slot of a laid-out menu, at the position of the item it comes from.
#[derive(Debug)]
pub enum MenuEntry<A> {
    /// Nothing is inserted at this position.
    Divider,
    /// A command with its id and the action it triggers.
    Action { id: u32, title: String, action: A },
    /// A nested menu.
    SubMenu { title: String, menu: Menu<A> },
}

/// A laid-out menu: entry `i` stands at position `i`.
#[derive(Debug)]
pub struct Menu<A> {
    pub entries: Vec<MenuEntry<A>>,
}

/// Actions among the first `n` items of `items`, counted through nested menus.
pub open spec fn actions_upto<A>(items: Seq<MenuItem<A>>, n: int) -> nat
    decreases items, n,
{
    if n <= 0 || n > items.len() {
        0
    } else {
        actions_upto(items, n - 1) + item_actions(items[n - 1])
    }
}

/// Actions in one item, counted through nested menus.
pub open spec fn item_actions<A>(item: MenuItem<A>) -> nat
    decreases item, 0int,
{
    match item {
        MenuItem::Divider => 0,
        MenuItem::Action { .. } => 1,
        MenuItem::SubMenu { items, .. } => actions_upto(items@, items@.len() as int),
    }
}

/// Actions in a whole menu description.
pub open spec fn actions_in<A>(items: Seq<MenuItem<A>>) -> nat {
    actions_upto(items, items.len() as int)
}

/// The first `n` entries lay out the first `n` items, with ids handed out
/// from `first` in depth-first order.
pub open spec fn lays_out_upto<A>(items: Seq<MenuItem<A>>, entries: Seq<MenuEntry<A>>, first: int, n: int) -> bool
    decreases items, n,
{
    if n <= 0 || n > items.len() || n > entries.len() {
        true
    } else {
        lays_out_upto(items, entries, first, n - 1) && entry_matches(
            items[n - 1],
            entries[n - 1],
            first + actions_upto(items, n - 1),
        )
    }
}

/// `entry` lays out `item`, whose actions take ids from `first` on.
pub open spec fn entry_matches<A>(item: MenuItem<A>, entry: MenuEntry<A>, first: int) -> bool
    decreases item, 0int,
{
    match (item, entry) {
        (MenuItem::Divider, MenuEntry::Divider) => true,
        (MenuItem::Action { title, action }, MenuEntry::Action { id, title: t, action: a }) => t@
            == title@ && id == first && a == action,
        (MenuItem::SubMenu { title, items }, MenuEntry::SubMenu { title: t, menu }) => t@ == title@
            && lays_out(items@, menu.entries@, first),
        _ => false,
    }
}

/// `entries` lays out `items` position by position, with ids handed out
/// from `first` in depth-first order.
pub open spec fn lays_out<A>(items: Seq<MenuItem<A>>, entries: Seq<MenuEntry<A>>, first: int) -> bool
    decreases items, items.len() + 1,
{
    entries.len() == items.len() && lays_out_upto(items, entries, first, items.len() as int)
}

proof fn lemma_actions_monotone<A>(items: Seq<MenuItem<A>>, n: int, m: int)
    requires
        0 <= n <= m <= items.len(),
    ensures
        actions_upto(items, n) <= actions_upto(items, m),
    decreases m - n,
{
    if n < m {
        lemma_actions_monotone(items, n, m - 1);
    }
}

proof fn lemma_lays_out_prefix<A>(items: Seq<MenuItem<A>>, e1: Seq<MenuEntry<A>>, e2: Seq<MenuEntry<A>>, first: int, n: int)
    requires
        0 <= n <= items.len(),
        n <= e1.len(),
        n <= e2.len(),
        forall|j: int| 0 <= j < n ==> e1[j] == e2[j],
    ensures
        lays_out_upto(items, e1, first, n) == lays_out_upto(items, e2, first, n),
    decreases n,
{
    if n > 0 {
        lemma_lays_out_prefix(items, e1, e2, first, n - 1);
    }
}

/// Lays out `items`, handing out command ids from `*next_id` on.
#[verifier::loop_isolation(false)]
fn lay_out<A>(items: Vec<MenuItem<A>>, next_id: &mut u32) -> (entries: Vec<MenuEntry<A>>)
    requires
        *old(next_id) + actions_in(items@) <= u32::MAX,
    ensures
        *final(next_id) == *old(next_id) + actions_in(items@),
        lays_out(items@, entries@, *old(next_id) as int),
    decreases items,
{
    let ghost whole = items;
    let ghost all = items@;
    let ghost first = *next_id as int;
    let n = items.len();
    let mut rest = items;
    let mut entries: Vec<MenuEntry<A>> = Vec::new();
    let mut i: usize = 0;
    while rest.len() > 0
        invariant
            whole@ == all,
            n == all.len(),
            i <= all.len(),
            rest@ == all.subrange(i as int, all.len() as int),
            entries@.len() == i,
            *next_id == first + actions_upto(all, i as int),
            first + actions_in(all) <= u32::MAX,
            lays_out_upto(all, entries@, first, i as int),
        decreases rest.len(),
    {
        proof {
            lemma_actions_monotone(all, i + 1, all.len() as int);
            assert(actions_upto(all, i + 1) == actions_upto(all, i as int) + item_actions(all[i as int]));
        }
        let ghost before = entries@;
        let ghost base = *next_id as int;
        assert(i < all.len());
        let item = rest.remove(0);
        assert(item == all[i as int]);
        assert(rest@ == all.subrange(i + 1, all.len() as int));
        match item {
            MenuItem::Divider => {
                entries.push(MenuEntry::Divider);
            },
            MenuItem::Action { title, action } => {
                entries.push(MenuEntry::Action { id: *next_id, title, action });
                *next_id = *next_id + 1;
            },
            MenuItem::SubMenu { title, items: sub } => {
                let nested = lay_out(sub, next_id);
                entries.push(MenuEntry::SubMenu { title, menu: Menu { entries: nested } });
            },
        }
        proof {
            lemma_lays_out_prefix(all, before, entries@, first, i as int);
            assert(entry_matches(all[i as int], entries@[i as int], base));
        }
        i += 1;
    }
    assert(all.subrange(i as int, all.len() as int).len() == 0);
    entries
}

/// Lays out a menu from its description. Entry `i` stands at position `i`;
/// actions get command ids 1, 2, ... in depth-first order, an action inside
/// a nested menu counting before the items that follow that menu, and each
/// action's payload moves into its entry.
pub fn new_menu<A>(items: Vec<MenuItem<A>>) -> (r: Menu<A>)
    requires
        actions_in(items@) < u32::MAX,
    ensures
        lays_out(items@, r.entries@, 1),
{
    let mut id: u32 = 1;
    let entries = lay_out(items, &mut id);
    Menu { entries }
}

} // verus!
