use vstd::prelude::*;

verus! {

/// The names of the devices whose description could be read, in the order in
/// which the host lists the devices; a device without a readable description
/// (`None`) is left out.
pub open spec fn present_names(descriptions: Seq<Option<String>>) -> Seq<String>
    decreases descriptions.len(),
{
    if descriptions.len() == 0 {
        Seq::empty()
    } else {
        present_names(descriptions.drop_last()) + match descriptions.last() {
            Some(name) => seq![name],
            None => Seq::<String>::empty(),
        }
    }
}

/// Whether a listed device carries the wanted name.
pub open spec fn carries_name(description: Option<String>, wanted: Seq<char>) -> bool {
    match description {
        Some(name) => name@ == wanted,
        None => false,
    }
}

/// The name under which a device is looked up: the configured one, or
/// `"default"` where none is configured.
pub open spec fn spec_requested_name(configured: Option<String>) -> Seq<char> {
    match configured {
        Some(name) => name@,
        None => "default"@,
    }
}

/// The names that a device listing shows, from the host's devices in order,
/// each given by its name or by `None` where its description could not be read.
pub fn device_names(descriptions: &Vec<Option<String>>) -> (names: Vec<String>)
    ensures
        names@ == present_names(descriptions@),
        names@ == descriptions@.filter(|d: Option<String>| d is Some).map_values(|d: Option<String>| d->0),
{
    let mut names: Vec<String> = Vec::new();
    let mut i: usize = 0;
    while i < descriptions.len()
        invariant
            i <= descriptions@.len(),
            names@ == present_names(descriptions@.take(i as int)),
        decreases descriptions@.len() - i,
    {
        assert(descriptions@.take(i + 1).drop_last() =~= descriptions@.take(i as int));
        match &descriptions[i] {
            Some(name) => {
                names.push(name.clone());
            },
            None => {},
        }
        i = i + 1;
        assert(names@ =~= present_names(descriptions@.take(i as int)));
    }
    assert(descriptions@.take(i as int) =~= descriptions@);
    proof {
        lemma_present_names_are_readable_names(descriptions@);
    }
    names
}

/// The listing holds one entry per readable device, in host order: it is the
/// sequence of descriptions with the unreadable ones removed, each replaced by
/// its name. So its length is the number of readable devices and its `k`-th
/// entry is the name of the `k`-th readable device.
pub proof fn lemma_present_names_are_readable_names(descriptions: Seq<Option<String>>)
    ensures
        present_names(descriptions) == descriptions.filter(|d: Option<String>| d is Some).map_values(
            |d: Option<String>| d->0,
        ),
        present_names(descriptions).len() == descriptions.filter(|d: Option<String>| d is Some).len(),
        forall|k: int|
            0 <= k < present_names(descriptions).len() ==> Some(#[trigger] present_names(descriptions)[k])
                == descriptions.filter(|d: Option<String>| d is Some)[k],
    decreases descriptions.len(),
{
    let pred = |d: Option<String>| d is Some;
    let get = |d: Option<String>| d->0;
    if descriptions.len() == 0 {
        assert(descriptions.filter(pred) =~= Seq::<Option<String>>::empty());
        assert(descriptions.filter(pred).map_values(get) =~= Seq::<String>::empty());
    } else {
        let front = descriptions.drop_last();
        lemma_present_names_are_readable_names(front);
        reveal_with_fuel(Seq::<_>::filter, 1);
        assert(descriptions.filter(pred) == if pred(descriptions.last()) {
            front.filter(pred).push(descriptions.last())
        } else {
            front.filter(pred)
        });
        assert(present_names(descriptions) =~= descriptions.filter(pred).map_values(get));
    }
    let f = descriptions.filter(pred);
    assert forall|k: int| 0 <= k < present_names(descriptions).len() implies Some(
        #[trigger] present_names(descriptions)[k],
    ) == f[k] by {
        descriptions.lemma_filter_pred(pred, k);
    }
}

/// A listed device carries a name exactly when its description is readable and
/// its name is that name; an unreadable device carries no name.
pub proof fn lemma_carries_name(description: Option<String>, wanted: Seq<char>)
    ensures
        carries_name(description, wanted) <==> (description is Some && description->0@ == wanted),
        description is None ==> !carries_name(description, wanted),
{
}

/// The name looked up is the configured name itself, unchanged, whenever one is
/// configured; `"default"` is used only when none is.
pub proof fn lemma_requested_name(configured: Option<String>)
    ensures
        configured matches Some(name) ==> spec_requested_name(configured) == name@,
        configured is None ==> spec_requested_name(configured) == "default"@,
{
}

/// The position of the first listed device that carries the wanted name, or
/// `None` where no device does (the caller then falls back to the host's
/// default device).
pub fn find_device(descriptions: &Vec<Option<String>>, wanted: &String) -> (found: Option<usize>)
    ensures
        match found {
            Some(i) => {
                &&& i < descriptions@.len()
                &&& carries_name(descriptions@[i as int], wanted@)
                &&& forall|j: int| 0 <= j < i ==> !carries_name(#[trigger] descriptions@[j], wanted@)
            },
            None => forall|j: int|
                0 <= j < descriptions@.len() ==> !carries_name(#[trigger] descriptions@[j], wanted@),
        },
{
    let mut i: usize = 0;
    while i < descriptions.len()
        invariant
            i <= descriptions@.len(),
            forall|j: int| 0 <= j < i ==> !carries_name(#[trigger] descriptions@[j], wanted@),
        decreases descriptions@.len() - i,
    {
        match &descriptions[i] {
            Some(name) => {
                if name.eq(wanted) {
                    return Some(i);
                }
            },
            None => {},
        }
        i = i + 1;
    }
    None
}

/// A name shows in the device listing exactly when some listed device carries
/// it, so every name that the selector offers is found again by the lookup.
pub proof fn lemma_listed_names_are_found(descriptions: Seq<Option<String>>, name: String)
    ensures
        present_names(descriptions).contains(name) <==> exists|j: int|
            0 <= j < descriptions.len() && #[trigger] descriptions[j] == Some(name),
        present_names(descriptions).contains(name) ==> exists|j: int|
            0 <= j < descriptions.len() && carries_name(#[trigger] descriptions[j], name@),
    decreases descriptions.len(),
{
    if descriptions.len() > 0 {
        let front = descriptions.drop_last();
        lemma_listed_names_are_found(front, name);
        let tail = match descriptions.last() {
            Some(n) => seq![n],
            None => Seq::<String>::empty(),
        };
        let names = present_names(descriptions);
        assert(names == present_names(front) + tail);
        if present_names(front).contains(name) {
            let k = choose|k: int| 0 <= k < present_names(front).len() && present_names(front)[k] == name;
            assert(names[k] == name);
            let j = choose|j: int| 0 <= j < front.len() && #[trigger] front[j] == Some(name);
            assert(descriptions[j] == Some(name));
        } else if descriptions.last() == Some(name) {
            assert(names[names.len() - 1] == name);
            assert(descriptions[descriptions.len() - 1] == Some(name));
            assert(carries_name(descriptions[descriptions.len() - 1], name@));
        } else {
            if names.contains(name) {
                let k = choose|k: int| 0 <= k < names.len() && names[k] == name;
                if k < present_names(front).len() {
                    assert(present_names(front)[k] == name);
                }
            }
            if exists|j: int| 0 <= j < descriptions.len() && #[trigger] descriptions[j] == Some(name) {
                let j = choose|j: int| 0 <= j < descriptions.len() && #[trigger] descriptions[j] == Some(name);
                assert(front[j] == Some(name));
            }
        }
    }
}

/// The name under which a device is looked up: the configured name, or
/// `"default"` where none is configured.
pub fn requested_device_name(configured: &Option<String>) -> (name: String)
    ensures
        name@ == spec_requested_name(*configured),
        configured matches Some(c) ==> name@ == c@,
        configured is None ==> name@ == "default"@,
{
    proof {
        lemma_requested_name(*configured);
    }
    match configured {
        Some(name) => name.clone(),
        None => "default".to_owned(),
    }
}

/// The entry that a device selector shows first: the first listed name, or the
/// empty name where the list is empty.
pub fn first_or_empty(names: &Vec<String>) -> (first: String)
    ensures
        names@.len() > 0 ==> first == names@[0],
        names@.len() == 0 ==> first@ == Seq::<char>::empty(),
{
    if names.len() > 0 {
        names[0].clone()
    } else {
        String::new()
    }
}

} // verus!
