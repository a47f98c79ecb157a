use vstd::prelude::*;

verus! {

/// The text of each name.
pub open spec fn name_views(names: Seq<String>) -> Seq<Seq<char>> {
    names.map_values(|s: String| s@)
}

/// The names of `required`, in order, that `supported` does not hold.
pub open spec fn missing(required: Seq<Seq<char>>, supported: Seq<Seq<char>>) -> Seq<Seq<char>> {
    required.filter(|n: Seq<char>| !supported.contains(n))
}

/// Whether `names` holds `name`.
pub fn contains_name(names: &Vec<String>, name: &String) -> (r: bool)
    ensures
        r == name_views(names@).contains(name@),
{
    let mut i: usize = 0;
    while i < names.len()
        invariant
            i <= names@.len(),
            forall|j: int| 0 <= j < i ==> names@[j]@ != name@,
        decreases names@.len() - i,
    {
        if names[i].eq(name) {
            assert(name_views(names@)[i as int] == name@);
            return true;
        }
        i = i + 1;
    }
    assert(!name_views(names@).contains(name@)) by {
        if name_views(names@).contains(name@) {
            let k = choose|k: int| 0 <= k < names@.len() && name_views(names@)[k] == name@;
            assert(names@[k]@ == name@);
        }
    }
    false
}

/// The names of `required`, in order, that `supported` does not hold.
pub fn missing_names(required: &Vec<String>, supported: &Vec<String>) -> (r: Vec<String>)
    ensures
        name_views(r@) == missing(name_views(required@), name_views(supported@)),
{
    let ghost sup = name_views(supported@);
    let ghost req = name_views(required@);
    let mut result: Vec<String> = Vec::new();
    let mut i: usize = 0;
    while i < required.len()
        invariant
            i <= required@.len(),
            sup == name_views(supported@),
            req == name_views(required@),
            name_views(result@) == missing(req.take(i as int), sup),
        decreases required@.len() - i,
    {
        proof {
            reveal(Seq::filter);
        }
        assert(req.take(i + 1).drop_last() == req.take(i as int));
        assert(req.take(i + 1).last() == required@[i as int]@);
        let found = contains_name(supported, &required[i]);
        if !found {
            let name = required[i].clone();
            result.push(name);
            assert(name_views(result@) == name_views(result@.drop_last()).push(name@));
        }
        i = i + 1;
    }
    assert(req.take(required@.len() as int) == req);
    result
}

/// A name is missing exactly when it is required and not supported.
pub proof fn lemma_missing_iff(required: Seq<Seq<char>>, supported: Seq<Seq<char>>, name: Seq<char>)
    ensures
        missing(required, supported).contains(name) <==> (required.contains(name) && !supported.contains(name)),
{
    let pred = |n: Seq<char>| !supported.contains(n);
    if missing(required, supported).contains(name) {
        let i = choose|i: int| 0 <= i < missing(required, supported).len() && missing(required, supported)[i] == name;
        required.lemma_filter_pred(pred, i);
        assert(required.filter(pred)[i] == name);
        required.lemma_filter_contains_rev(pred, name);
    }
    if required.contains(name) && !supported.contains(name) {
        let i = choose|i: int| 0 <= i < required.len() && required[i] == name;
        required.lemma_filter_contains(pred, i);
    }
}

} // verus!
