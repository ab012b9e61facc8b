//! What holds of a delay line over a whole stream of samples.
use crate::delay_line::shifted;
use vstd::prelude::*;

verus! {

/// The history of a delay line, oldest first, after the samples of `xs` have
/// entered it in order, starting from history `h`.
pub open spec fn history_after<T>(h: Seq<T>, xs: Seq<T>) -> Seq<T>
    decreases xs.len(),
{
    if xs.len() == 0 {
        h
    } else {
        shifted(history_after(h, xs.drop_last()), xs.last())
    }
}

/// What `get_write_and_step` returns for each sample of `xs`, fed in order to
/// a delay line whose history is `h`.
pub open spec fn outputs_after<T>(h: Seq<T>, xs: Seq<T>) -> Seq<T>
    decreases xs.len(),
{
    if xs.len() == 0 {
        Seq::empty()
    } else {
        outputs_after(h, xs.drop_last()).push(history_after(h, xs.drop_last())[0])
    }
}

/// A delay line is a pure delay of its length: fed the stream `xs`, it
/// returns the stream that its history `h` followed by `xs` forms, and
/// afterwards its history is the last `h.len()` samples of that stream.
pub proof fn lemma_pure_delay<T>(h: Seq<T>, xs: Seq<T>)
    requires
        h.len() > 0,
    ensures
        outputs_after(h, xs) == (h + xs).take(xs.len() as int),
        history_after(h, xs) == (h + xs).skip(xs.len() as int),
    decreases xs.len(),
{
    if xs.len() > 0 {
        let ys = xs.drop_last();
        lemma_pure_delay(h, ys);
        let s = h + xs;
        assert(h + ys =~= s.take(ys.len() as int + h.len()));
        let hy = history_after(h, ys);
        assert(hy[0] == s[ys.len() as int]);
        assert(outputs_after(h, xs) =~= s.take(xs.len() as int));
        assert(history_after(h, xs) =~= s.skip(xs.len() as int));
    }
}

/// A silent delay line fed silence stays silent and returns only silence.
pub proof fn lemma_silence<T>(h: Seq<T>, xs: Seq<T>, silence: T)
    requires
        h.len() > 0,
        forall|i: int| 0 <= i < h.len() ==> h[i] == silence,
        forall|i: int| 0 <= i < xs.len() ==> xs[i] == silence,
    ensures
        forall|i: int| 0 <= i < xs.len() ==> outputs_after(h, xs)[i] == silence,
        history_after(h, xs) == h,
{
    lemma_pure_delay(h, xs);
    let s = h + xs;
    assert(forall|i: int| 0 <= i < s.len() ==> s[i] == silence);
    assert(history_after(h, xs) =~= h);
}

} // verus!
