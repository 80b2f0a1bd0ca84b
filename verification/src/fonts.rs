use vstd::prelude::*;

use crate::accumulator::Accumulator;

verus! {

/// The subsequence of `calls` that the allowed-value set accepts, in call
/// order: the entries of the observation accumulator that one render's
/// invocations of the bound function contribute.
pub open spec fn accepted_of(allowed: Seq<Seq<char>>, calls: Seq<Seq<char>>) -> Seq<Seq<char>>
    decreases calls.len(),
{
    if calls.len() == 0 {
        Seq::empty()
    } else if allowed.contains(calls.last()) {
        accepted_of(allowed, calls.drop_last()).push(calls.last())
    } else {
        accepted_of(allowed, calls.drop_last())
    }
}

/// The accumulator contents after a render that starts from `acc` and invokes
/// the bound function once for each element of `calls`, in order; each step is
/// exactly what `register_font_mut` does.
pub open spec fn run_registrations(
    allowed: Seq<Seq<char>>,
    acc: Seq<Seq<char>>,
    calls: Seq<Seq<char>>,
) -> Seq<Seq<char>>
    decreases calls.len(),
{
    if calls.len() == 0 {
        acc
    } else if allowed.contains(calls.last()) {
        run_registrations(allowed, acc, calls.drop_last()).push(calls.last())
    } else {
        run_registrations(allowed, acc, calls.drop_last())
    }
}

/// Whether `values` holds a string whose characters are `x`'s.
pub fn contains_value(values: &Vec<String>, x: &String) -> (r: bool)
    ensures
        r == values.deep_view().contains(x@),
{
    let n = values.len();
    let mut i: usize = 0;
    while i < n
        invariant
            n == values.deep_view().len(),
            0 <= i <= n,
            forall|j: int| 0 <= j < i ==> values.deep_view()[j] != x@,
        decreases n - i,
    {
        if values[i] == *x {
            proof {
                assert(values.deep_view()[i as int] == x@);
            }
            return true;
        }
        i += 1;
    }
    proof {
        assert(!values.deep_view().contains(x@));
    }
    false
}

/// Validates `font` against the allowed-value set alone: returns the font
/// itself when the set holds it and the empty sentinel otherwise. Rejection is
/// a successful return, never an error.
pub fn register_font(font: String, available_fonts: &Vec<String>) -> (r: String)
    ensures
        available_fonts.deep_view().contains(font@) ==> r@ == font@,
        !available_fonts.deep_view().contains(font@) ==> r@ == Seq::<char>::empty(),
{
    if contains_value(available_fonts, &font) {
        return font;
    }
    String::new()
}

/// Validate-then-report: like `register_font`, but an accepted font is also
/// appended to the observation accumulator. A rejected font returns the empty
/// sentinel and leaves the accumulator exactly as it was.
pub fn register_font_mut(
    font: String,
    available_fonts: &Vec<String>,
    registered_fonts: &mut Accumulator,
) -> (r: String)
    ensures
        available_fonts.deep_view().contains(font@) ==> r@ == font@
            && final(registered_fonts)@ == old(registered_fonts)@.push(font@),
        !available_fonts.deep_view().contains(font@) ==> r@ == Seq::<char>::empty()
            && final(registered_fonts)@ == old(registered_fonts)@,
{
    if contains_value(available_fonts, &font) {
        registered_fonts.report(font.clone());
        return font;
    }
    String::new()
}

/// Invokes `register_font_mut` once for each element of `calls`, in order:
/// the shape of one render's worth of bound-function invocations. The
/// accumulator ends as `run_registrations` says.
pub fn run_calls(
    available_fonts: &Vec<String>,
    registered_fonts: &mut Accumulator,
    calls: &Vec<String>,
) ensures
        final(registered_fonts)@ == run_registrations(
            available_fonts.deep_view(),
            old(registered_fonts)@,
            calls.deep_view(),
        ),
{
    let n = calls.len();
    let mut i: usize = 0;
    while i < n
        invariant
            n == calls.deep_view().len(),
            0 <= i <= n,
            registered_fonts@ == run_registrations(
                available_fonts.deep_view(),
                old(registered_fonts)@,
                calls.deep_view().take(i as int),
            ),
        decreases n - i,
    {
        let ghost before = calls.deep_view().take(i as int);
        register_font_mut(calls[i].clone(), available_fonts, registered_fonts);
        proof {
            let after = calls.deep_view().take(i + 1 as int);
            assert(after.drop_last() =~= before);
            assert(after.last() == calls.deep_view()[i as int]);
        }
        i += 1;
    }
    proof {
        assert(calls.deep_view().take(n as int) =~= calls.deep_view());
    }
}

/// Accumulation completeness: a render that starts from `acc` and invokes the
/// bound function with arguments `calls` leaves the accumulator holding `acc`
/// followed by exactly the accepted calls, in call order; rejected calls
/// contribute nothing.
pub proof fn lemma_accumulation_completeness(
    allowed: Seq<Seq<char>>,
    acc: Seq<Seq<char>>,
    calls: Seq<Seq<char>>,
)
    ensures
        run_registrations(allowed, acc, calls) == acc + accepted_of(allowed, calls),
    decreases calls.len(),
{
    if calls.len() == 0 {
        assert(run_registrations(allowed, acc, calls) =~= acc + accepted_of(allowed, calls));
    } else {
        lemma_accumulation_completeness(allowed, acc, calls.drop_last());
        assert(run_registrations(allowed, acc, calls) =~= acc + accepted_of(allowed, calls));
    }
}

/// Rejection purity: one further invocation whose argument the allowed-value
/// set does not hold leaves the accumulator exactly as the earlier
/// invocations left it.
pub proof fn lemma_rejection_purity(
    allowed: Seq<Seq<char>>,
    acc: Seq<Seq<char>>,
    calls: Seq<Seq<char>>,
    font: Seq<char>,
)
    requires
        !allowed.contains(font),
    ensures
        run_registrations(allowed, acc, calls.push(font)) == run_registrations(allowed, acc, calls),
{
    assert(calls.push(font).drop_last() =~= calls);
    assert(calls.push(font).last() == font);
}

/// Every value the accumulator gains during a render was an argument of that
/// same render's own invocations, and one the allowed-value set holds.
pub proof fn lemma_reported_from_own_calls(
    allowed: Seq<Seq<char>>,
    calls: Seq<Seq<char>>,
    v: Seq<char>,
)
    requires
        accepted_of(allowed, calls).contains(v),
    ensures
        calls.contains(v),
        allowed.contains(v),
    decreases calls.len(),
{
    if calls.len() == 0 {
        // accepted_of is empty: the premise cannot hold.
    } else if allowed.contains(calls.last()) && v == calls.last() {
        assert(calls[calls.len() - 1] == v);
    } else {
        let prev = accepted_of(allowed, calls.drop_last());
        if allowed.contains(calls.last()) {
            let cur = prev.push(calls.last());
            let j = choose|j: int| 0 <= j < cur.len() && cur[j] == v;
            assert(prev[j] == v);
            assert(prev.contains(v));
        }
        lemma_reported_from_own_calls(allowed, calls.drop_last(), v);
        let k = choose|k: int| 0 <= k < calls.drop_last().len() && calls.drop_last()[k] == v;
        assert(calls[k] == v);
    }
}

/// Isolation: the accumulators of two renders are determined by their own
/// calls alone. A value accepted during the first render appears in the
/// second render's accumulator only if the second render was itself invoked
/// with it.
pub proof fn lemma_render_isolation(
    allowed1: Seq<Seq<char>>,
    calls1: Seq<Seq<char>>,
    allowed2: Seq<Seq<char>>,
    calls2: Seq<Seq<char>>,
    v: Seq<char>,
)
    requires
        accepted_of(allowed1, calls1).contains(v),
        !calls2.contains(v),
    ensures
        calls1.contains(v),
        !accepted_of(allowed2, calls2).contains(v),
{
    lemma_reported_from_own_calls(allowed1, calls1, v);
    if accepted_of(allowed2, calls2).contains(v) {
        lemma_reported_from_own_calls(allowed2, calls2, v);
    }
}

} // verus!
