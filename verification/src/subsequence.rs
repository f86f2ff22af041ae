use vstd::prelude::*;

verus! {

/// Whether `whole` is `part` with further elements put in: the elements of
/// `part` occur in `whole`, in the same order.
pub open spec fn embeds<T>(part: Seq<T>, whole: Seq<T>) -> bool
    decreases whole.len(),
{
    if part.len() == 0 {
        true
    } else if whole.len() == 0 {
        false
    } else if part.last() == whole.last() && embeds(part.drop_last(), whole.drop_last()) {
        true
    } else {
        embeds(part, whole.drop_last())
    }
}

/// A sequence is embedded in itself.
pub proof fn lemma_embeds_itself<T>(whole: Seq<T>)
    ensures
        embeds(whole, whole),
    decreases whole.len(),
{
    if whole.len() > 0 {
        lemma_embeds_itself(whole.drop_last());
    }
}

/// One more element at the end of the whole changes nothing.
pub proof fn lemma_embeds_in_longer<T>(part: Seq<T>, whole: Seq<T>, last: T)
    requires
        embeds(part, whole),
    ensures
        embeds(part, whole.push(last)),
{
    assert(whole.push(last).drop_last() =~= whole);
}

/// The same element at the end of both keeps the embedding.
pub proof fn lemma_embeds_with_last<T>(part: Seq<T>, whole: Seq<T>, last: T)
    requires
        embeds(part, whole),
    ensures
        embeds(part.push(last), whole.push(last)),
{
    assert(whole.push(last).drop_last() =~= whole);
    assert(part.push(last).drop_last() =~= part);
}

/// What the part holds, the whole holds.
pub proof fn lemma_embeds_contains<T>(part: Seq<T>, whole: Seq<T>, element: T)
    requires
        embeds(part, whole),
        part.contains(element),
    ensures
        whole.contains(element),
    decreases whole.len(),
{
    let i = part.index_of(element);
    if part.last() == whole.last() && embeds(part.drop_last(), whole.drop_last()) {
        if i == part.len() - 1 {
            assert(whole[whole.len() - 1] == element);
        } else {
            assert(part.drop_last()[i] == element);
            lemma_embeds_contains(part.drop_last(), whole.drop_last(), element);
            let j = whole.drop_last().index_of(element);
            assert(whole[j] == element);
        }
    } else {
        lemma_embeds_contains(part, whole.drop_last(), element);
        let j = whole.drop_last().index_of(element);
        assert(whole[j] == element);
    }
}

/// A test keeps the embedding: what passes of the part is embedded in what
/// passes of the whole.
pub proof fn lemma_embeds_filter<T>(part: Seq<T>, whole: Seq<T>, test: spec_fn(T) -> bool)
    requires
        embeds(part, whole),
    ensures
        embeds(part.filter(test), whole.filter(test)),
    decreases whole.len(),
{
    reveal(Seq::filter);
    if part.len() == 0 {
    } else if part.last() == whole.last() && embeds(part.drop_last(), whole.drop_last()) {
        lemma_embeds_filter(part.drop_last(), whole.drop_last(), test);
        if test(part.last()) {
            lemma_embeds_with_last(
                part.drop_last().filter(test),
                whole.drop_last().filter(test),
                part.last(),
            );
        }
    } else {
        lemma_embeds_filter(part, whole.drop_last(), test);
        if test(whole.last()) {
            lemma_embeds_in_longer(part.filter(test), whole.drop_last().filter(test), whole.last());
        }
    }
}

/// A function applied to each element keeps the embedding.
pub proof fn lemma_embeds_map<T, U>(part: Seq<T>, whole: Seq<T>, f: spec_fn(T) -> U)
    requires
        embeds(part, whole),
    ensures
        embeds(part.map_values(f), whole.map_values(f)),
    decreases whole.len(),
{
    if part.len() == 0 {
    } else if part.last() == whole.last() && embeds(part.drop_last(), whole.drop_last()) {
        lemma_embeds_map(part.drop_last(), whole.drop_last(), f);
        assert(part.map_values(f).drop_last() =~= part.drop_last().map_values(f));
        assert(whole.map_values(f).drop_last() =~= whole.drop_last().map_values(f));
    } else {
        lemma_embeds_map(part, whole.drop_last(), f);
        assert(whole.map_values(f).drop_last() =~= whole.drop_last().map_values(f));
    }
}

/// Embeddings go on: two parts one after the other are embedded in their
/// wholes one after the other.
pub proof fn lemma_embeds_concat<T>(part: Seq<T>, whole: Seq<T>, next: Seq<T>, after: Seq<T>)
    requires
        embeds(part, whole),
        embeds(next, after),
    ensures
        embeds(part + next, whole + after),
    decreases after.len(),
{
    if after.len() == 0 {
        assert(part + next =~= part);
        assert(whole + after =~= whole);
    } else {
        assert((whole + after).drop_last() =~= whole + after.drop_last());
        if next.len() > 0 && next.last() == after.last() && embeds(
            next.drop_last(),
            after.drop_last(),
        ) {
            lemma_embeds_concat(part, whole, next.drop_last(), after.drop_last());
            assert((part + next).drop_last() =~= part + next.drop_last());
        } else {
            lemma_embeds_concat(part, whole, next, after.drop_last());
        }
    }
}

} // verus!
