//! Fail-fast aggregation of the per-target results.
//!
//! The fetches themselves run concurrently outside the library; each hands
//! back one `Result`. The batch outcome is pinned here: the lines in input
//! order when every fetch succeeded, otherwise the error of the first failed
//! target in input order, with no partial output. Because the outcome is a
//! function of the per-target results alone, two runs over the same results
//! print the same lines, whatever order the fetches completed in.

use vstd::prelude::*;

use crate::errors::CurrencyError;

verus! {

/// One per-target result, as its mathematical image.
pub open spec fn res_view(r: Result<String, CurrencyError>) -> Result<Seq<char>, CurrencyError> {
    match r {
        Ok(s) => Ok(s@),
        Err(e) => Err(e),
    }
}

/// All per-target results, as their mathematical images, in input order.
pub open spec fn results_view(s: Seq<Result<String, CurrencyError>>) -> Seq<
    Result<Seq<char>, CurrencyError>,
> {
    s.map_values(|r: Result<String, CurrencyError>| res_view(r))
}

/// The batch outcome for a sequence of per-target results: all the lines in
/// input order when every result is a success, otherwise the error of the
/// first failed target.
pub open spec fn collect_spec(s: Seq<Result<Seq<char>, CurrencyError>>) -> Result<
    Seq<Seq<char>>,
    CurrencyError,
>
    decreases s.len(),
{
    if s.len() == 0 {
        Ok(Seq::empty())
    } else {
        match s[0] {
            Err(e) => Err(e),
            Ok(v) => match collect_spec(s.drop_first()) {
                Ok(rest) => Ok(seq![v] + rest),
                Err(e) => Err(e),
            },
        }
    }
}

/// Aggregates the per-target results fail-fast: every line in input order on
/// all-success, otherwise the first error in input order and no output.
pub fn collect_results(results: Vec<Result<String, CurrencyError>>) -> (r: Result<
    Vec<String>,
    CurrencyError,
>)
    ensures
        (r matches Ok(lines) ==> collect_spec(results_view(results@)) == Ok::<
            Seq<Seq<char>>,
            CurrencyError,
        >(lines@.map_values(|l: String| l@))),
        (r matches Err(e) ==> collect_spec(results_view(results@)) == Err::<
            Seq<Seq<char>>,
            CurrencyError,
        >(e)),
{
    let ghost orig = results_view(results@);
    let mut rest = results;
    let mut lines: Vec<String> = Vec::new();
    loop
        invariant
            orig == results_view(results@),
            collect_spec(orig) == (match collect_spec(results_view(rest@)) {
                Ok(r) => Ok::<Seq<Seq<char>>, CurrencyError>(
                    lines@.map_values(|l: String| l@) + r,
                ),
                Err(e) => Err::<Seq<Seq<char>>, CurrencyError>(e),
            }),
        decreases rest@.len(),
    {
        if rest.len() == 0 {
            proof {
                assert(results_view(rest@) =~= Seq::<Result<Seq<char>, CurrencyError>>::empty());
                assert(lines@.map_values(|l: String| l@) + Seq::<Seq<char>>::empty() =~= lines@.map_values(
                    |l: String| l@,
                ));
            }
            return Ok(lines);
        }
        let ghost prev = results_view(rest@);
        let first = rest.remove(0);
        proof {
            assert(results_view(rest@) =~= prev.drop_first());
            assert(prev[0] == res_view(first));
        }
        match first {
            Err(e) => {
                return Err(e);
            },
            Ok(line) => {
                let ghost before = lines@;
                lines.push(line);
                proof {
                    assert(lines@.map_values(|l: String| l@) =~= before.map_values(|l: String| l@)
                        + seq![prev[0]->Ok_0]);
                    assert forall|r: Seq<Seq<char>>|
                        before.map_values(|l: String| l@) + (seq![prev[0]->Ok_0] + r) =~= lines@.map_values(
                            |l: String| l@,
                        ) + r by {}
                }
            },
        }
    }
}

/// When every per-target result is a success, the batch succeeds and yields
/// exactly one line per target, each the corresponding target's line, in
/// input order.
pub proof fn lemma_collect_all_ok(s: Seq<Result<Seq<char>, CurrencyError>>)
    requires
        forall|i: int| 0 <= i < s.len() ==> s[i] is Ok,
    ensures
        collect_spec(s) is Ok,
        collect_spec(s)->Ok_0.len() == s.len(),
        forall|i: int| 0 <= i < s.len() ==> collect_spec(s)->Ok_0[i] == s[i]->Ok_0,
    decreases s.len(),
{
    if s.len() > 0 {
        assert(s.drop_first().len() == s.len() - 1);
        assert(forall|i: int| 0 <= i < s.drop_first().len() ==> s.drop_first()[i] == s[i + 1]);
        lemma_collect_all_ok(s.drop_first());
    }
}

/// When some per-target result failed, the batch fails with the error of the
/// first failed target in input order, whatever the others hold.
pub proof fn lemma_collect_first_err(s: Seq<Result<Seq<char>, CurrencyError>>, i: int)
    requires
        0 <= i < s.len(),
        s[i] is Err,
        forall|j: int| 0 <= j < i ==> s[j] is Ok,
    ensures
        collect_spec(s) == Err::<Seq<Seq<char>>, CurrencyError>(s[i]->Err_0),
    decreases i,
{
    if i > 0 {
        assert(forall|j: int| 0 <= j < s.drop_first().len() ==> s.drop_first()[j] == s[j + 1]);
        lemma_collect_first_err(s.drop_first(), i - 1);
    }
}

} // verus!
