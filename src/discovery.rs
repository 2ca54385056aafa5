//! Picks the battery devices out of the entries of the power-supply root.

use vstd::prelude::*;
use crate::text::starts_with;

verus! {

/// The name that every battery device's entry begins with.
pub open spec fn battery_prefix() -> Seq<char> {
    "BAT"@
}

/// Whether an entry with this name is a battery device. An entry whose name
/// is not text is none.
pub open spec fn is_battery_name(name: Option<String>) -> bool {
    match name {
        Some(n) => n@.len() >= 3 && n@.subrange(0, 3) == battery_prefix(),
        None => false,
    }
}

/// The items of the entries whose names are battery names, in their order.
pub open spec fn battery_items<T>(entries: Seq<(Option<String>, T)>) -> Seq<T>
    decreases entries.len(),
{
    if entries.len() == 0 {
        Seq::empty()
    } else {
        let rest = battery_items(entries.drop_last());
        if is_battery_name(entries.last().0) {
            rest.push(entries.last().1)
        } else {
            rest
        }
    }
}

/// Discovery keeps exactly the entries whose names begin with the battery
/// prefix, and hands out their items in the order of the entries.
pub proof fn lemma_battery_items<T>(entries: Seq<(Option<String>, T)>)
    ensures
        battery_items(entries) == entries.filter(|e: (Option<String>, T)| is_battery_name(e.0)).map_values(
            |e: (Option<String>, T)| e.1,
        ),
    decreases entries.len(),
{
    let keep = |e: (Option<String>, T)| is_battery_name(e.0);
    let item = |e: (Option<String>, T)| e.1;
    reveal(Seq::filter);
    if entries.len() > 0 {
        lemma_battery_items(entries.drop_last());
        let before = entries.drop_last().filter(keep);
        assert(entries.filter(keep) == if keep(entries.last()) {
            before.push(entries.last())
        } else {
            before
        });
        if keep(entries.last()) {
            assert(before.push(entries.last()).map_values(item) =~= before.map_values(item).push(
                entries.last().1,
            ));
        }
    } else {
        assert(entries.filter(keep).map_values(item) =~= Seq::<T>::empty());
    }
}

/// Whether `name` is the name of a battery device.
pub fn is_battery_entry(name: &Option<String>) -> (r: bool)
    ensures
        r == is_battery_name(*name),
{
    match name {
        Some(n) => {
            let prefix = "BAT";
            proof {
                reveal_strlit("BAT");
            }
            starts_with(n.as_str(), prefix)
        },
        None => false,
    }
}

/// Given the entries of the power-supply root, each with its name (where
/// the name is text) and its location, returns the locations of the battery
/// devices.
pub fn find_batteries<T>(entries: Vec<(Option<String>, T)>) -> (r: Vec<T>)
    ensures
        r@ == battery_items(entries@),
{
    let ghost all = entries@;
    let mut entries = entries;
    let mut found: Vec<T> = Vec::new();
    while entries.len() > 0
        invariant
            entries@.len() <= all.len(),
            all.subrange(all.len() - entries@.len(), all.len() as int) == entries@,
            found@ == battery_items(all.subrange(0, all.len() - entries@.len())),
        decreases entries.len(),
    {
        let ghost done = all.len() - entries@.len();
        let e = entries.remove(0);
        proof {
            assert(all[done] == e);
            assert(all.subrange(0, done + 1).drop_last() =~= all.subrange(0, done));
            assert(all.subrange(done + 1, all.len() as int) =~= entries@);
        }
        let (name, item) = e;
        if is_battery_entry(&name) {
            found.push(item);
        }
    }
    assert(all.subrange(0, all.len() as int) =~= all);
    found
}

} // verus!
