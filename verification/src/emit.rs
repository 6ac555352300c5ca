//! Spec-level helpers for text that is emitted piecewise: concatenating the
//! texts of a sequence of emitted items, summing a weight over them, and runs
//! of indentation spaces.

use vstd::prelude::*;
use vstd::string::StringExecFns;

verus! {

/// The texts of all items, in order, as one character sequence.
pub open spec fn concat_texts<T>(items: Seq<T>, text_of: spec_fn(T) -> Seq<char>) -> Seq<char>
    decreases items.len(),
{
    if items.len() == 0 {
        Seq::empty()
    } else {
        text_of(items[0]) + concat_texts(items.drop_first(), text_of)
    }
}

pub proof fn lemma_concat_texts_add<T>(a: Seq<T>, b: Seq<T>, text_of: spec_fn(T) -> Seq<char>)
    ensures
        concat_texts(a + b, text_of) == concat_texts(a, text_of) + concat_texts(b, text_of),
    decreases a.len(),
{
    if a.len() == 0 {
        assert(a + b =~= b);
        assert(concat_texts(a, text_of) + concat_texts(b, text_of) =~= concat_texts(b, text_of));
    } else {
        assert((a + b).drop_first() =~= a.drop_first() + b);
        lemma_concat_texts_add(a.drop_first(), b, text_of);
        assert(concat_texts(a + b, text_of) =~= concat_texts(a, text_of) + concat_texts(
            b,
            text_of,
        ));
    }
}

pub proof fn lemma_concat_texts_singleton<T>(x: T, text_of: spec_fn(T) -> Seq<char>)
    ensures
        concat_texts(seq![x], text_of) == text_of(x),
{
    assert(seq![x].drop_first() =~= Seq::<T>::empty());
    assert(concat_texts(Seq::<T>::empty(), text_of) == Seq::<char>::empty());
    assert(concat_texts(seq![x], text_of) =~= text_of(x));
}

/// The sum of a weight over all items of a sequence.
pub open spec fn sum_over<T>(items: Seq<T>, weight: spec_fn(T) -> nat) -> nat
    decreases items.len(),
{
    if items.len() == 0 {
        0
    } else {
        weight(items[0]) + sum_over(items.drop_first(), weight)
    }
}

pub proof fn lemma_sum_over_add<T>(a: Seq<T>, b: Seq<T>, weight: spec_fn(T) -> nat)
    ensures
        sum_over(a + b, weight) == sum_over(a, weight) + sum_over(b, weight),
    decreases a.len(),
{
    if a.len() == 0 {
        assert(a + b =~= b);
    } else {
        assert((a + b).drop_first() =~= a.drop_first() + b);
        lemma_sum_over_add(a.drop_first(), b, weight);
    }
}

pub proof fn lemma_sum_over_singleton<T>(x: T, weight: spec_fn(T) -> nat)
    ensures
        sum_over(seq![x], weight) == weight(x),
{
    assert(seq![x].drop_first() =~= Seq::<T>::empty());
    assert(sum_over(Seq::<T>::empty(), weight) == 0);
}

/// `n` spaces.
pub open spec fn spaces(n: nat) -> Seq<char> {
    Seq::new(n, |i: int| ' ')
}

/// Appends four spaces for every indentation level, as the dump's nesting
/// uses them.
pub fn push_indent(level: usize, out: &mut String)
    ensures
        final(out)@ == old(out)@ + spaces(4 * level as nat),
{
    let mut i: usize = 0;
    proof {
        assert(out@ =~= old(out)@ + spaces(0));
    }
    while i < level
        invariant
            i <= level,
            out@ == old(out)@ + spaces(4 * i as nat),
        decreases level - i,
    {
        out.append("    ");
        proof {
            reveal_strlit("    ");
            assert(spaces(4 * (i + 1) as nat) =~= spaces(4 * i as nat) + "    "@);
            assert(out@ =~= old(out)@ + spaces(4 * (i + 1) as nat));
        }
        i = i + 1;
    }
}

} // verus!
