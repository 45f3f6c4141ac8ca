use vstd::prelude::*;

use crate::registry::add_name;

verus! {

broadcast use vstd::seq_lib::group_seq_properties;

/// The registered names, in order, after registering each name of `calls`
/// in turn on an empty registry.
pub open spec fn names_after(calls: Seq<Seq<char>>) -> Seq<Seq<char>>
    decreases calls.len(),
{
    if calls.len() == 0 {
        Seq::empty()
    } else {
        add_name(names_after(calls.drop_last()), calls.last())
    }
}

/// Whether registering `name` succeeds on a registry that holds `names`.
pub open spec fn add_succeeds(names: Seq<Seq<char>>, name: Seq<char>) -> bool {
    !names.contains(name)
}

/// How many of the registrations in `calls` succeed.
pub open spec fn successes(calls: Seq<Seq<char>>) -> nat
    decreases calls.len(),
{
    if calls.len() == 0 {
        0
    } else {
        successes(calls.drop_last()) + if add_succeeds(
            names_after(calls.drop_last()),
            calls.last(),
        ) {
            1nat
        } else {
            0nat
        }
    }
}

/// One more registration: on a registry that holds the names left by
/// `calls`, where `histogram_add` leaves `add_name(names, name)` and succeeds
/// exactly when `add_succeeds(names, name)`, registering `name` leaves the
/// names of `calls` followed by `name`, and adds one success exactly when it
/// succeeds. From an empty registry, the names after any sequence of calls
/// are thus `names_after` of the names asked for.
pub proof fn lemma_registration_step(calls: Seq<Seq<char>>, name: Seq<char>)
    ensures
        names_after(calls.push(name)) == add_name(names_after(calls), name),
        successes(calls.push(name)) == successes(calls) + if add_succeeds(
            names_after(calls),
            name,
        ) {
            1nat
        } else {
            0nat
        },
{
    assert(calls.push(name).drop_last() =~= calls);
}

proof fn lemma_names_after(calls: Seq<Seq<char>>)
    ensures
        names_after(calls).no_duplicates(),
        names_after(calls).to_set() == calls.to_set(),
        successes(calls) == names_after(calls).len(),
    decreases calls.len(),
{
    if calls.len() == 0 {
        assert(calls.to_set() =~= Set::empty());
        assert(names_after(calls).to_set() =~= Set::empty());
    } else {
        let prev = calls.drop_last();
        lemma_names_after(prev);
        assert(calls =~= prev.push(calls.last()));
        assert(calls.to_set() =~= prev.to_set().insert(calls.last()));
        let names = names_after(prev);
        if names.contains(calls.last()) {
            assert(names.to_set().contains(calls.last()));
            assert(calls.to_set() =~= names.to_set());
        } else {
            assert(names.push(calls.last()).to_set() =~= names.to_set().insert(calls.last()));
            assert forall|i: int, j: int|
                0 <= i < j < names.push(calls.last()).len() implies names.push(calls.last())[i]
                != names.push(calls.last())[j] by {
                if j == names.len() {
                    assert(names.contains(names[i]));
                }
            }
        }
    }
}

/// Registration keeps names unique: whatever the sequence of names that
/// registrations are asked for, as many of them succeed as there are distinct
/// names in it, and the registry then holds each of those names once.
pub proof fn lemma_unique_naming(calls: Seq<Seq<char>>)
    ensures
        successes(calls) == calls.to_set().len(),
        names_after(calls).no_duplicates(),
        names_after(calls).to_set() == calls.to_set(),
{
    lemma_names_after(calls);
    names_after(calls).unique_seq_to_set();
}

/// A name can be looked up after a sequence of registrations exactly when
/// one of them registered that name with success.
pub proof fn lemma_registration_before_lookup(calls: Seq<Seq<char>>, name: Seq<char>)
    ensures
        names_after(calls).contains(name) <==> exists|i: int|
            0 <= i < calls.len() && calls[i] == name && add_succeeds(
                #[trigger] names_after(calls.take(i)),
                name,
            ),
    decreases calls.len(),
{
    if calls.len() > 0 {
        let prev = calls.drop_last();
        let last = calls.len() - 1;
        lemma_registration_before_lookup(prev, name);
        assert forall|i: int| 0 <= i < prev.len() implies calls.take(i) == prev.take(i) && calls[i]
            == prev[i] by {
            assert(calls.take(i) =~= prev.take(i));
        }
        assert(calls.take(last) =~= prev);
        if names_after(prev).contains(name) {
            let i = choose|i: int|
                0 <= i < prev.len() && prev[i] == name && add_succeeds(
                    #[trigger] names_after(prev.take(i)),
                    name,
                );
            assert(calls.take(i) == prev.take(i));
            assert(add_name(names_after(prev), calls.last()).contains(name)) by {
                if !names_after(prev).contains(calls.last()) {
                    let j = choose|j: int| 0 <= j < names_after(prev).len() && names_after(prev)[j] == name;
                    assert(names_after(prev).push(calls.last())[j] == name);
                }
            }
        } else if calls.last() == name {
            assert(names_after(calls.take(last)) == names_after(prev));
            assert(names_after(prev).push(name)[names_after(prev).len() as int] == name);
        } else {
            if exists|i: int|
                0 <= i < calls.len() && calls[i] == name && add_succeeds(
                    #[trigger] names_after(calls.take(i)),
                    name,
                ) {
                let i = choose|i: int|
                    0 <= i < calls.len() && calls[i] == name && add_succeeds(
                        #[trigger] names_after(calls.take(i)),
                        name,
                    );
                assert(i < prev.len());
                assert(names_after(prev.take(i)) == names_after(calls.take(i)));
            }
            if names_after(calls).contains(name) {
                let j = choose|j: int| 0 <= j < names_after(calls).len() && names_after(calls)[j] == name;
                if !names_after(prev).contains(calls.last()) {
                    assert(j < names_after(prev).len());
                    assert(names_after(prev)[j] == name);
                }
            }
        }
    }
}

/// Registration keeps the order: the names that the first `k` registrations
/// left in the registry stand, in the same order, at the front of the names
/// that all of them leave.
pub proof fn lemma_order_preserved(calls: Seq<Seq<char>>, k: int)
    requires
        0 <= k <= calls.len(),
    ensures
        names_after(calls.take(k)).len() <= names_after(calls).len(),
        names_after(calls.take(k)) == names_after(calls).take(names_after(calls.take(k)).len() as int),
    decreases calls.len(),
{
    let all = names_after(calls);
    if k == calls.len() {
        assert(calls.take(k) =~= calls);
        assert(all.take(all.len() as int) =~= all);
    } else {
        let prev = calls.drop_last();
        lemma_order_preserved(prev, k);
        assert(calls.take(k) =~= prev.take(k));
        let front = names_after(prev.take(k));
        if !names_after(prev).contains(calls.last()) {
            assert(names_after(prev).push(calls.last()).take(front.len() as int) =~= names_after(
                prev,
            ).take(front.len() as int));
        }
    }
}

} // verus!
