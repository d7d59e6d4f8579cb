//! Collections of items that are found by name: a list in which each name
//! stands at most once does the work of a map from names to items.

use crate::text::same_text;
use vstd::prelude::*;

verus! {

/// Something that is found by its name.
pub trait Named {
    /// The name, as characters.
    spec fn key(&self) -> Seq<char>;

    /// The name.
    fn name_text(&self) -> (out: &str)
        ensures
            out@ == self.key(),
    ;
}

/// Whether one of the items has this name.
pub open spec fn holds<T: Named>(items: Seq<T>, name: Seq<char>) -> bool {
    exists|i: int| 0 <= i < items.len() && #[trigger] items[i].key() == name
}

/// Whether no two of the items share a name.
pub open spec fn unique<T: Named>(items: Seq<T>) -> bool {
    forall|i: int, j: int|
        0 <= i < j < items.len() ==> #[trigger] items[i].key() != #[trigger] items[j].key()
}

/// The place of an item with this name, where there is one.
pub open spec fn position<T: Named>(items: Seq<T>, name: Seq<char>) -> int {
    choose|i: int| 0 <= i < items.len() && #[trigger] items[i].key() == name
}

/// Among items with unique names, the place of a name is the only place where
/// it stands.
pub proof fn position_is_the_place<T: Named>(items: Seq<T>, name: Seq<char>, i: int)
    requires
        unique(items),
        0 <= i < items.len(),
        items[i].key() == name,
    ensures
        holds(items, name),
        position(items, name) == i,
{
    let p = position(items, name);
    assert(0 <= p < items.len() && items[p].key() == name);
    if p < i {
        assert(items[p].key() != items[i].key());
    } else if i < p {
        assert(items[i].key() != items[p].key());
    }
}

/// The place of the item with this name, if there is one.
pub fn find<T: Named>(items: &Vec<T>, name: &str) -> (out: Option<usize>)
    ensures
        out is Some <==> holds(items@, name@),
        out matches Some(i) ==> i < items.len() && items@[i as int].key() == name@,
        out matches Some(i) ==> unique(items@) ==> position(items@, name@) == i,
{
    let mut i: usize = 0;
    while i < items.len()
        invariant
            i <= items.len(),
            forall|j: int| 0 <= j < i ==> #[trigger] items@[j].key() != name@,
        decreases items.len() - i,
    {
        if same_text(items[i].name_text(), name) {
            proof {
                if unique(items@) {
                    position_is_the_place(items@, name@, i as int);
                }
            }
            return Some(i);
        }
        i += 1;
    }
    None
}

/// The item with this name, where there is one.
pub open spec fn item_of<T: Named>(items: Seq<T>, name: Seq<char>) -> Option<T> {
    if holds(items, name) {
        Some(items[position(items, name)])
    } else {
        None
    }
}

/// The items without the one that has this name.
pub open spec fn without<T: Named>(items: Seq<T>, name: Seq<char>) -> Seq<T> {
    if holds(items, name) {
        items.remove(position(items, name))
    } else {
        items
    }
}

/// Adding an item under a new name keeps the names unique, and changes what is
/// found under that name only.
pub proof fn push_keeps_names<T: Named>(items: Seq<T>, item: T)
    requires
        unique(items),
        !holds(items, item.key()),
    ensures
        unique(items.push(item)),
        forall|name: Seq<char>|
            #[trigger] item_of(items.push(item), name) == (if name == item.key() {
                Some(item)
            } else {
                item_of(items, name)
            }),
{
    let after = items.push(item);
    assert forall|i: int, j: int| 0 <= i < j < after.len() implies #[trigger] after[i].key()
        != #[trigger] after[j].key() by {
        if j == items.len() {
            assert(items[i].key() != item.key());
        } else {
            assert(items[i].key() != items[j].key());
        }
    }
    assert forall|name: Seq<char>|
        #[trigger] item_of(after, name) == (if name == item.key() {
            Some(item)
        } else {
            item_of(items, name)
        }) by {
        if name == item.key() {
            position_is_the_place(after, name, items.len() as int);
        } else if holds(items, name) {
            let i = position(items, name);
            assert(after[i].key() == name);
            position_is_the_place(after, name, i);
        } else {
            if holds(after, name) {
                let i = position(after, name);
                assert(i < items.len());
                assert(items[i].key() == name);
            }
        }
    }
}

/// Taking the item of one name out keeps the names unique, and changes what is
/// found under that name only.
pub proof fn without_keeps_names<T: Named>(items: Seq<T>, gone: Seq<char>)
    requires
        unique(items),
    ensures
        unique(without(items, gone)),
        forall|name: Seq<char>|
            #[trigger] item_of(without(items, gone), name) == (if name == gone {
                None
            } else {
                item_of(items, name)
            }),
{
    let after = without(items, gone);
    if holds(items, gone) {
        let g = position(items, gone);
        assert forall|i: int, j: int| 0 <= i < j < after.len() implies #[trigger] after[i].key()
            != #[trigger] after[j].key() by {
            let a = if i < g { i } else { i + 1 };
            let b = if j < g { j } else { j + 1 };
            assert(after[i] == items[a]);
            assert(after[j] == items[b]);
            assert(items[a].key() != items[b].key());
        }
        assert forall|name: Seq<char>|
            #[trigger] item_of(after, name) == (if name == gone {
                None
            } else {
                item_of(items, name)
            }) by {
            if holds(after, name) {
                let i = position(after, name);
                let a = if i < g { i } else { i + 1 };
                assert(after[i] == items[a]);
                position_is_the_place(items, name, a);
                if name == gone {
                    assert(a == g);
                }
            } else if name != gone && holds(items, name) {
                let a = position(items, name);
                let i = if a < g { a } else { a - 1 };
                assert(after[i] == items[a]);
                assert(after[i].key() == name);
            }
        }
    } else {
        assert forall|name: Seq<char>|
            #[trigger] item_of(after, name) == (if name == gone {
                None
            } else {
                item_of(items, name)
            }) by {}
    }
}

/// What is found under each name when the items are put into a map one after
/// the other, a later item taking the place of an earlier one of its name.
pub open spec fn as_map<T: Named>(items: Seq<T>) -> Map<Seq<char>, T>
    decreases items.len(),
{
    if items.len() == 0 {
        Map::empty()
    } else {
        as_map(items.drop_last()).insert(items.last().key(), items.last())
    }
}

/// What a map holds under a name, if anything.
pub open spec fn lookup<T>(m: Map<Seq<char>, T>, name: Seq<char>) -> Option<T> {
    if m.contains_key(name) {
        Some(m[name])
    } else {
        None
    }
}

/// Puts an item in the place of the one of its name, or at the end where its
/// name is new.
pub fn upsert<T: Named>(items: &mut Vec<T>, item: T)
    requires
        unique(old(items)@),
    ensures
        unique(final(items)@),
        forall|name: Seq<char>|
            #[trigger] item_of(final(items)@, name) == (if name == item.key() {
                Some(item)
            } else {
                item_of(old(items)@, name)
            }),
        final(items)@ == (if holds(old(items)@, item.key()) {
            old(items)@.update(position(old(items)@, item.key()), item)
        } else {
            old(items)@.push(item)
        }),
{
    let ghost before = items@;
    match find(items, item.name_text()) {
        Some(i) => {
            items[i] = item;
            proof {
                let after = items@;
                assert(after == before.update(i as int, item));
                assert forall|a: int, b: int| 0 <= a < b < after.len() implies #[trigger] after[a].key()
                    != #[trigger] after[b].key() by {
                    assert(before[a].key() != before[b].key());
                }
                assert forall|name: Seq<char>|
                    #[trigger] item_of(after, name) == (if name == item.key() {
                        Some(item)
                    } else {
                        item_of(before, name)
                    }) by {
                    if name == item.key() {
                        position_is_the_place(after, name, i as int);
                    } else if holds(before, name) {
                        let a = position(before, name);
                        assert(after[a] == before[a]);
                        position_is_the_place(after, name, a);
                    } else if holds(after, name) {
                        let a = position(after, name);
                        assert(before[a].key() == name);
                    }
                }
            }
        },
        None => {
            proof {
                push_keeps_names(before, item);
            }
            items.push(item);
        },
    }
}

/// The items with one place for each name: a later item takes the place of an
/// earlier one of its name.
pub fn merged<T: Named>(items: Vec<T>) -> (out: Vec<T>)
    ensures
        unique(out@),
        forall|name: Seq<char>| #[trigger] item_of(out@, name) == lookup(as_map(items@), name),
{
    let ghost all = items@;
    let mut out: Vec<T> = Vec::new();
    assert forall|name: Seq<char>| #[trigger]
        item_of(out@, name) == lookup(as_map(all.take(0)), name) by {
        assert(!holds(out@, name));
    }
    for item in it: items
        invariant
            it.seq() == all,
            unique(out@),
            forall|name: Seq<char>| #[trigger]
                item_of(out@, name) == lookup(as_map(all.take(it.index@)), name),
    {
        proof {
            let k = it.index@;
            assert(all.take(k + 1).drop_last() == all.take(k));
            assert(all.take(k + 1).last() == item);
        }
        upsert(&mut out, item);
    }
    proof {
        assert(all.take(all.len() as int) == all);
    }
    out
}

} // verus!
