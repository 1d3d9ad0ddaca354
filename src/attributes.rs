//! Compatibility and status flags turned into labels.

use vstd::prelude::*;
use vstd::string::StringExecFns;
use crate::models::{Attribute, PetDetails};

verus! {

/// The key and the label of an attribute.
pub open spec fn attribute_view(a: Attribute) -> (Seq<char>, Seq<char>) {
    (a.key@, a.display@)
}

/// The keys and labels of a list of attributes.
pub open spec fn attributes_view(v: Seq<Attribute>) -> Seq<(Seq<char>, Seq<char>)> {
    v.map_values(|a: Attribute| attribute_view(a))
}

/// One entry where the flag is 1, none otherwise.
pub open spec fn entry_if(flag: Option<u8>, key: Seq<char>, display: Seq<char>) -> Seq<
    (Seq<char>, Seq<char>),
> {
    if flag == Some(1u8) {
        seq![(key, display)]
    } else {
        seq![]
    }
}

/// The attributes of a detail record, in their fixed order.
pub open spec fn record_attributes(d: PetDetails) -> Seq<(Seq<char>, Seq<char>)> {
    entry_if(d.good_with_cats, "good_with_cats"@, "Good with cats"@)
        + entry_if(d.good_with_dogs, "good_with_dogs"@, "Good with dogs"@)
        + entry_if(d.good_with_kids, "good_with_kids"@, "Good with kids"@)
        + entry_if(d.housetrained, "housetrained"@, "Housetrained"@)
        + entry_if(d.shots_current, "shots_current"@, "Shots current"@)
        + entry_if(d.spayed_neutered, "spayed_neutered"@, "Spayed/Neutered"@)
        + entry_if(d.special_needs, "special_needs"@, "Special needs"@)
        + entry_if(d.declawed, "declawed"@, "Declawed"@)
}

/// The attribute keys, in their fixed order.
pub open spec fn attribute_keys() -> Seq<Seq<char>> {
    seq![
        "good_with_cats"@,
        "good_with_dogs"@,
        "good_with_kids"@,
        "housetrained"@,
        "shots_current"@,
        "spayed_neutered"@,
        "special_needs"@,
        "declawed"@,
    ]
}

/// The attribute labels, in the order of their keys.
pub open spec fn attribute_labels() -> Seq<Seq<char>> {
    seq![
        "Good with cats"@,
        "Good with dogs"@,
        "Good with kids"@,
        "Housetrained"@,
        "Shots current"@,
        "Spayed/Neutered"@,
        "Special needs"@,
        "Declawed"@,
    ]
}

/// The flags of a detail record, in the order of their keys.
pub open spec fn flags_of(d: PetDetails) -> Seq<Option<u8>> {
    seq![
        d.good_with_cats,
        d.good_with_dogs,
        d.good_with_kids,
        d.housetrained,
        d.shots_current,
        d.spayed_neutered,
        d.special_needs,
        d.declawed,
    ]
}

/// The entries for the first `n` flags that are 1.
pub open spec fn selected(flags: Seq<Option<u8>>, n: int) -> Seq<(Seq<char>, Seq<char>)>
    decreases n,
{
    if n <= 0 {
        seq![]
    } else {
        selected(flags, n - 1) + entry_if(flags[n - 1], attribute_keys()[n - 1], attribute_labels()[n - 1])
    }
}

/// `e` is the key and label of one of the first `n` flags, and that flag is 1.
pub open spec fn set_entry(flags: Seq<Option<u8>>, n: int, e: (Seq<char>, Seq<char>)) -> bool {
    exists|i: int|
        0 <= i < n && flags[i] == Some(1u8) && e == (attribute_keys()[i], attribute_labels()[i])
}

/// How many of the first `n` flags are 1.
pub open spec fn count_set(flags: Seq<Option<u8>>, n: int) -> nat
    decreases n,
{
    if n <= 0 {
        0
    } else {
        count_set(flags, n - 1) + if flags[n - 1] == Some(1u8) { 1nat } else { 0nat }
    }
}

proof fn lemma_keys_distinct()
    ensures
        forall|i: int, j: int| 0 <= i < j < 8 ==> attribute_keys()[i] != attribute_keys()[j],
{
    reveal_strlit("good_with_cats");
    reveal_strlit("good_with_dogs");
    reveal_strlit("good_with_kids");
    reveal_strlit("housetrained");
    reveal_strlit("shots_current");
    reveal_strlit("spayed_neutered");
    reveal_strlit("special_needs");
    reveal_strlit("declawed");
    let k = attribute_keys();
    assert(k[0].len() == 14 && k[1].len() == 14 && k[2].len() == 14 && k[3].len() == 12
        && k[4].len() == 13 && k[5].len() == 15 && k[6].len() == 13 && k[7].len() == 8);
    assert(k[0][10] == 'c' && k[1][10] == 'd' && k[2][10] == 'k');
    assert(k[4][1] == 'h' && k[6][1] == 'p');
    assert forall|i: int, j: int| 0 <= i < j < 8 implies k[i] != k[j] by {
        if k[i].len() == k[j].len() {
            if i <= 2 {
                assert(k[i][10] != k[j][10]);
            } else {
                assert(k[i][1] != k[j][1]);
            }
        }
    }
}

proof fn lemma_record_is_selected(d: PetDetails)
    ensures
        record_attributes(d) == selected(flags_of(d), 8),
{
    let f = flags_of(d);
    let k = attribute_keys();
    let l = attribute_labels();
    assert(selected(f, 0) =~= seq![]);
    assert(selected(f, 1) =~= entry_if(f[0], k[0], l[0]));
    assert(selected(f, 2) =~= entry_if(f[0], k[0], l[0]) + entry_if(f[1], k[1], l[1]));
    assert(selected(f, 3) =~= entry_if(f[0], k[0], l[0]) + entry_if(f[1], k[1], l[1])
        + entry_if(f[2], k[2], l[2]));
    assert(selected(f, 4) =~= entry_if(f[0], k[0], l[0]) + entry_if(f[1], k[1], l[1])
        + entry_if(f[2], k[2], l[2]) + entry_if(f[3], k[3], l[3]));
    assert(selected(f, 5) =~= entry_if(f[0], k[0], l[0]) + entry_if(f[1], k[1], l[1])
        + entry_if(f[2], k[2], l[2]) + entry_if(f[3], k[3], l[3]) + entry_if(f[4], k[4], l[4]));
    assert(selected(f, 6) =~= entry_if(f[0], k[0], l[0]) + entry_if(f[1], k[1], l[1])
        + entry_if(f[2], k[2], l[2]) + entry_if(f[3], k[3], l[3]) + entry_if(f[4], k[4], l[4])
        + entry_if(f[5], k[5], l[5]));
    assert(selected(f, 7) =~= entry_if(f[0], k[0], l[0]) + entry_if(f[1], k[1], l[1])
        + entry_if(f[2], k[2], l[2]) + entry_if(f[3], k[3], l[3]) + entry_if(f[4], k[4], l[4])
        + entry_if(f[5], k[5], l[5]) + entry_if(f[6], k[6], l[6]));
    assert(selected(f, 8) =~= entry_if(f[0], k[0], l[0]) + entry_if(f[1], k[1], l[1])
        + entry_if(f[2], k[2], l[2]) + entry_if(f[3], k[3], l[3]) + entry_if(f[4], k[4], l[4])
        + entry_if(f[5], k[5], l[5]) + entry_if(f[6], k[6], l[6]) + entry_if(f[7], k[7], l[7]));
}

proof fn lemma_selected(f: Seq<Option<u8>>, n: int)
    requires
        0 <= n <= 8,
        f.len() == 8,
    ensures
        selected(f, n).len() == count_set(f, n),
        forall|j: int| 0 <= j < selected(f, n).len() ==> set_entry(f, n, #[trigger] selected(f, n)[j]),
        forall|i: int|
            0 <= i < n && f[i] == Some(1u8) ==> #[trigger] selected(f, n).contains(
                (attribute_keys()[i], attribute_labels()[i]),
            ),
        forall|j: int, k: int|
            0 <= j < k < selected(f, n).len() ==> #[trigger] selected(f, n)[j].0
                != #[trigger] selected(f, n)[k].0,
    decreases n,
{
    if n > 0 {
        lemma_selected(f, n - 1);
        lemma_keys_distinct();
        let prev = selected(f, n - 1);
        let cur = selected(f, n);
        let e = (attribute_keys()[n - 1], attribute_labels()[n - 1]);
        assert(cur == prev + entry_if(f[n - 1], e.0, e.1));
        assert forall|j: int| 0 <= j < cur.len() implies set_entry(f, n, #[trigger] cur[j]) by {
            if j < prev.len() {
                assert(cur[j] == prev[j]);
                assert(set_entry(f, n - 1, prev[j]));
                let i = choose|i: int| 0 <= i < n - 1 && f[i] == Some(1u8) && prev[j] == (
                    attribute_keys()[i],
                    attribute_labels()[i],
                );
                assert(0 <= i < n && f[i] == Some(1u8) && cur[j] == (
                    attribute_keys()[i],
                    attribute_labels()[i],
                ));
            } else {
                assert(cur[j] == e);
                assert(f[n - 1] == Some(1u8));
                assert(0 <= n - 1 < n && f[n - 1] == Some(1u8) && cur[j] == (
                    attribute_keys()[n - 1],
                    attribute_labels()[n - 1],
                ));
            }
        }
        assert forall|i: int| 0 <= i < n && f[i] == Some(1u8) implies #[trigger] cur.contains(
            (attribute_keys()[i], attribute_labels()[i]),
        ) by {
            if i < n - 1 {
                assert(prev.contains((attribute_keys()[i], attribute_labels()[i])));
                let j = choose|j: int| 0 <= j < prev.len() && prev[j] == (attribute_keys()[i], attribute_labels()[i]);
                assert(cur[j] == prev[j]);
            } else {
                assert(cur[prev.len() as int] == e);
            }
        }
        assert forall|j: int, k: int| 0 <= j < k < cur.len() implies #[trigger] cur[j].0
            != #[trigger] cur[k].0 by {
            assert(cur[j] == prev[j]);
            if k < prev.len() {
                assert(cur[k] == prev[k]);
                assert(prev[j].0 != prev[k].0);
            } else {
                assert(cur[k] == e);
                assert(set_entry(f, n - 1, prev[j]));
                let i = choose|i: int| 0 <= i < n - 1 && f[i] == Some(1u8) && prev[j] == (
                    attribute_keys()[i],
                    attribute_labels()[i],
                );
            }
        }
    } else {
        assert(selected(f, n) =~= seq![]);
    }
}

/// The attributes of a detail record are exactly its flags that are 1, each
/// once: every entry is the key and label of a flag that is 1, every flag that
/// is 1 gives an entry, there are as many entries as such flags, and no key
/// repeats.
pub proof fn lemma_attributes_exactly_set_flags(d: PetDetails)
    ensures
        record_attributes(d).len() == count_set(flags_of(d), 8),
        forall|j: int|
            0 <= j < record_attributes(d).len() ==> set_entry(
                flags_of(d),
                8,
                #[trigger] record_attributes(d)[j],
            ),
        forall|i: int|
            0 <= i < 8 && flags_of(d)[i] == Some(1u8) ==> #[trigger] record_attributes(d).contains(
                (attribute_keys()[i], attribute_labels()[i]),
            ),
        forall|j: int, k: int|
            0 <= j < k < record_attributes(d).len() ==> #[trigger] record_attributes(d)[j].0
                != #[trigger] record_attributes(d)[k].0,
{
    lemma_record_is_selected(d);
    lemma_selected(flags_of(d), 8);
}

/// The attributes of an optional detail record: none without one.
pub open spec fn attributes_of(details: Option<&PetDetails>) -> Seq<(Seq<char>, Seq<char>)> {
    match details {
        Some(d) => record_attributes(*d),
        None => seq![],
    }
}

/// A flag as a boolean: true exactly where it is 1.
pub fn api_bool(value: Option<u8>) -> (r: Option<bool>)
    ensures
        match value {
            Some(v) => r == Some(v == 1),
            None => r is None,
        },
{
    match value {
        Some(v) => Some(v == 1),
        None => None,
    }
}

/// Appends the attribute `key` / `display` where the flag is 1.
fn push_if_set(attrs: &mut Vec<Attribute>, flag: Option<u8>, key: &str, display: &str)
    ensures
        attributes_view(final(attrs)@) == attributes_view(old(attrs)@) + entry_if(
            flag,
            key@,
            display@,
        ),
{
    if api_bool(flag) == Some(true) {
        let a = Attribute { key: String::from_str(key), display: String::from_str(display) };
        attrs.push(a);
        assert(attributes_view(attrs@) =~= attributes_view(old(attrs)@) + entry_if(
            flag,
            key@,
            display@,
        ));
    } else {
        assert(attributes_view(attrs@) =~= attributes_view(old(attrs)@) + entry_if(
            flag,
            key@,
            display@,
        ));
    }
}

/// The attributes whose flag is 1, in the fixed order; none without a detail record.
pub fn build_attributes(details: Option<&PetDetails>) -> (r: Vec<Attribute>)
    ensures
        attributes_view(r@) == attributes_of(details),
{
    let mut attrs: Vec<Attribute> = Vec::new();
    match details {
        None => {
            assert(attributes_view(attrs@) =~= seq![]);
        },
        Some(d) => {
            assert(attributes_view(attrs@) =~= seq![]);
            push_if_set(&mut attrs, d.good_with_cats, "good_with_cats", "Good with cats");
            push_if_set(&mut attrs, d.good_with_dogs, "good_with_dogs", "Good with dogs");
            push_if_set(&mut attrs, d.good_with_kids, "good_with_kids", "Good with kids");
            push_if_set(&mut attrs, d.housetrained, "housetrained", "Housetrained");
            push_if_set(&mut attrs, d.shots_current, "shots_current", "Shots current");
            push_if_set(&mut attrs, d.spayed_neutered, "spayed_neutered", "Spayed/Neutered");
            push_if_set(&mut attrs, d.special_needs, "special_needs", "Special needs");
            push_if_set(&mut attrs, d.declawed, "declawed", "Declawed");
            assert(attributes_view(attrs@) =~= record_attributes(*d));
        },
    }
    attrs
}

} // verus!
