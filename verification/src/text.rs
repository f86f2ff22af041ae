use vstd::prelude::*;
use vstd::string::*;
use vstd::utf8::encode_utf8_decode_utf8;

verus! {

/// Whether two string slices hold the same characters.
pub fn str_equal(a: &str, b: &str) -> (same: bool)
    ensures
        same == (a@ == b@),
{
    let x = a.as_bytes();
    let y = b.as_bytes();
    proof {
        encode_utf8_decode_utf8(a@);
        encode_utf8_decode_utf8(b@);
    }
    if x.len() != y.len() {
        return false;
    }
    let mut i: usize = 0;
    while i < x.len()
        invariant
            i <= x.len(),
            x@ == a.spec_bytes(),
            y@ == b.spec_bytes(),
            x@.len() == y@.len(),
            forall|j: int| 0 <= j < i ==> x@[j] == y@[j],
        decreases x.len() - i,
    {
        if x[i] != y[i] {
            return false;
        }
        i += 1;
    }
    assert(x@ =~= y@);
    true
}

/// Whether `name` occurs in `list`.
pub fn contains_name(list: &Vec<String>, name: &str) -> (found: bool)
    ensures
        found == list.deep_view().contains(name@),
{
    let mut i: usize = 0;
    while i < list.len()
        invariant
            i <= list.len(),
            forall|j: int| 0 <= j < i ==> list.deep_view()[j] != name@,
        decreases list.len() - i,
    {
        if str_equal(list[i].as_str(), name) {
            assert(list.deep_view()[i as int] == name@);
            return true;
        }
        i += 1;
    }
    false
}

/// Appends `name` to `list`.
pub fn push_name(list: &mut Vec<String>, name: String)
    ensures
        final(list).deep_view() == old(list).deep_view().push(name@),
        final(list).len() == old(list).len() + 1,
{
    list.push(name);
    assert(list.deep_view() =~= old(list).deep_view().push(name@));
}

/// The one-element sequence `[name]` when `flag` holds, the empty sequence otherwise.
pub open spec fn tag_if(flag: bool, name: Seq<char>) -> Seq<Seq<char>> {
    if flag {
        seq![name]
    } else {
        Seq::empty()
    }
}

/// What `tag_if` holds: the name, and only where the flag is set.
pub proof fn lemma_tag_if_contains(flag: bool, name: Seq<char>, tag: Seq<char>)
    ensures
        tag_if(flag, name).contains(tag) <==> (flag && tag == name),
{
    if flag {
        assert(tag_if(flag, name)[0] == name);
    }
}

/// Appends a copy of `name` to `list`.
pub fn push_str_name(list: &mut Vec<String>, name: &str)
    ensures
        final(list).deep_view() == old(list).deep_view().push(name@),
        final(list).len() == old(list).len() + 1,
{
    push_name(list, String::from_str(name));
}

/// Appends `name` to `list` when `flag` holds.
pub fn push_if(list: &mut Vec<String>, flag: bool, name: &str)
    ensures
        final(list).deep_view() == old(list).deep_view() + tag_if(flag, name@),
{
    if flag {
        push_name(list, String::from_str(name));
    }
    assert(list.deep_view() =~= old(list).deep_view() + tag_if(flag, name@));
}

/// The list `[name]` when `flag` holds, the empty list otherwise.
pub fn names_if(flag: bool, name: &str) -> (list: Vec<String>)
    ensures
        list.deep_view() == tag_if(flag, name@),
{
    let mut list: Vec<String> = Vec::new();
    if flag {
        list.push(String::from_str(name));
    }
    assert(list.deep_view() =~= tag_if(flag, name@));
    list
}

/// Appends a copy of every name of `more` to `list`, in order.
pub fn append_names(list: &mut Vec<String>, more: &Vec<String>)
    ensures
        final(list).deep_view() == old(list).deep_view() + more.deep_view(),
{
    let mut i: usize = 0;
    while i < more.len()
        invariant
            i <= more.len(),
            list.deep_view() == old(list).deep_view() + more.deep_view().subrange(0, i as int),
        decreases more.len() - i,
    {
        push_name(list, more[i].clone());
        assert(more.deep_view().subrange(0, i + 1) =~= more.deep_view().subrange(0, i as int).push(
            more[i as int]@,
        ));
        assert(list.deep_view() =~= old(list).deep_view() + more.deep_view().subrange(
            0,
            i + 1,
        ));
        i += 1;
    }
    assert(more.deep_view().subrange(0, i as int) =~= more.deep_view());
}

/// A copy of a list of names.
pub fn clone_names(list: &Vec<String>) -> (copy: Vec<String>)
    ensures
        copy.deep_view() == list.deep_view(),
{
    let mut copy: Vec<String> = Vec::new();
    assert(copy.deep_view() =~= Seq::<Seq<char>>::empty());
    append_names(&mut copy, list);
    assert(copy.deep_view() =~= list.deep_view());
    copy
}

/// The list stored for `name` in a map of lists, or the empty list where the
/// map has no entry for it.
pub open spec fn listed(lists: Map<Seq<char>, Seq<Seq<char>>>, name: Seq<char>) -> Seq<Seq<char>> {
    if lists.contains_key(name) {
        lists[name]
    } else {
        Seq::empty()
    }
}

/// A concatenation holds what its two parts hold.
pub proof fn lemma_concat_contains(a: Seq<Seq<char>>, b: Seq<Seq<char>>)
    ensures
        forall|name: Seq<char>| (a + b).contains(name) <==> (a.contains(name) || b.contains(name)),
        (a + b).to_set() == a.to_set().union(b.to_set()),
{
    assert forall|name: Seq<char>| (a + b).contains(name) <==> (a.contains(name) || b.contains(
        name,
    )) by {
        if a.contains(name) {
            let i = a.index_of(name);
            assert((a + b)[i] == name);
        }
        if b.contains(name) {
            let i = b.index_of(name);
            assert((a + b)[a.len() + i] == name);
        }
        if (a + b).contains(name) {
            let i = (a + b).index_of(name);
            if i < a.len() {
                assert(a[i] == name);
            } else {
                assert(b[i - a.len()] == name);
            }
        }
    }
    assert((a + b).to_set() =~= a.to_set().union(b.to_set()));
}

/// The names of a list without repetitions: each name at the place of its
/// first occurrence.
pub open spec fn distinct(names: Seq<Seq<char>>) -> Seq<Seq<char>>
    decreases names.len(),
{
    if names.len() == 0 {
        names
    } else {
        let before = distinct(names.drop_last());
        if before.contains(names.last()) {
            before
        } else {
            before.push(names.last())
        }
    }
}

/// `distinct` holds no name twice and holds the names of its argument.
pub proof fn lemma_distinct(names: Seq<Seq<char>>)
    ensures
        distinct(names).no_duplicates(),
        forall|name: Seq<char>| distinct(names).contains(name) <==> names.contains(name),
    decreases names.len(),
{
    if names.len() > 0 {
        let front = names.drop_last();
        let before = distinct(front);
        lemma_distinct(front);
        assert forall|name: Seq<char>| distinct(names).contains(name) <==> names.contains(
            name,
        ) by {
            if names.contains(name) {
                let i = names.index_of(name);
                if i < front.len() {
                    assert(front[i] == name);
                    assert(front.contains(name));
                    assert(before.contains(name));
                    let j = before.index_of(name);
                    assert(distinct(names)[j] == name);
                } else {
                    assert(name == names.last());
                    if !before.contains(name) {
                        assert(distinct(names)[before.len() as int] == name);
                    }
                }
            }
            if distinct(names).contains(name) {
                let j = distinct(names).index_of(name);
                if j < before.len() {
                    assert(before[j] == name);
                    assert(front.contains(name));
                    let i = front.index_of(name);
                    assert(names[i] == name);
                } else {
                    assert(names[names.len() - 1] == name);
                }
            }
        }
    }
}

/// The distinct names of a list open the distinct names of every list that
/// goes on after it.
pub proof fn lemma_distinct_prefix(names: Seq<Seq<char>>, more: Seq<Seq<char>>)
    ensures
        distinct(names).is_prefix_of(distinct(names + more)),
    decreases more.len(),
{
    if more.len() == 0 {
        assert(names + more =~= names);
    } else {
        lemma_distinct_prefix(names, more.drop_last());
        assert((names + more).drop_last() =~= names + more.drop_last());
    }
}

/// Two tests that agree on the names of a list keep the same names of it.
pub proof fn lemma_filter_agree(
    names: Seq<Seq<char>>,
    first: spec_fn(Seq<char>) -> bool,
    second: spec_fn(Seq<char>) -> bool,
)
    requires
        forall|i: int| 0 <= i < names.len() ==> first(#[trigger] names[i]) == second(names[i]),
    ensures
        names.filter(first) == names.filter(second),
    decreases names.len(),
{
    reveal(Seq::filter);
    if names.len() > 0 {
        let front = names.drop_last();
        assert forall|i: int| 0 <= i < front.len() implies first(#[trigger] front[i]) == second(
            front[i],
        ) by {
            assert(front[i] == names[i]);
        }
        lemma_filter_agree(front, first, second);
        assert(first(names[names.len() - 1]) == second(names[names.len() - 1]));
    }
}

/// Copies a list of names without repetitions: each name stays at the
/// place of its first occurrence.
pub fn distinct_names(names: &Vec<String>) -> (kept: Vec<String>)
    ensures
        kept.deep_view() == distinct(names.deep_view()),
        kept.deep_view().no_duplicates(),
        forall|name: Seq<char>| kept.deep_view().contains(name) <==> names.deep_view().contains(name),
{
    let mut kept: Vec<String> = Vec::new();
    let mut i: usize = 0;
    assert(names.deep_view().subrange(0, 0) =~= Seq::<Seq<char>>::empty());
    assert(kept.deep_view() =~= Seq::<Seq<char>>::empty());
    while i < names.len()
        invariant
            i <= names.len(),
            kept.deep_view() == distinct(names.deep_view().subrange(0, i as int)),
        decreases names.len() - i,
    {
        assert(names.deep_view().subrange(0, i + 1).drop_last() =~= names.deep_view().subrange(
            0,
            i as int,
        ));
        assert(names.deep_view().subrange(0, i + 1).last() == names[i as int]@);
        if !contains_name(&kept, names[i].as_str()) {
            push_name(&mut kept, names[i].clone());
        }
        i += 1;
    }
    assert(names.deep_view().subrange(0, i as int) =~= names.deep_view());
    proof {
        lemma_distinct(names.deep_view());
    }
    kept
}

} // verus!
