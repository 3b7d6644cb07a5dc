//! Lists of tokens and names, read one after the other until one fails.

use vstd::prelude::*;
use crate::cell::models;
use crate::error::{NameList, TxError};
use crate::outpoint::{parse_dependency, OutPoint, OutPointModel, TokenError};
use crate::registry::{resolve, Record};

verus! {

/// Whether `results` has its first failure at `at`.
pub open spec fn fails_first_at<T, E>(results: Seq<Result<T, E>>, at: int) -> bool {
    &&& 0 <= at < results.len()
    &&& results[at] is Err
    &&& forall|i: int| 0 <= i < at ==> (#[trigger] results[i]) is Ok
}

/// Whether none of `results` is a failure.
pub open spec fn all_ok<T, E>(results: Seq<Result<T, E>>) -> bool {
    forall|i: int| 0 <= i < results.len() ==> (#[trigger] results[i]) is Ok
}

/// Where `results` fails first.
pub open spec fn first_failure<T, E>(results: Seq<Result<T, E>>) -> int {
    choose|at: int| fails_first_at(results, at)
}

/// What the results hold, where none has failed.
pub open spec fn values<T, E>(results: Seq<Result<T, E>>) -> Seq<T> {
    Seq::new(results.len(), |i: int| results[i]->Ok_0)
}

/// Results fail first in one place only.
pub proof fn lemma_first_failure<T, E>(results: Seq<Result<T, E>>, at: int)
    requires
        fails_first_at(results, at),
    ensures
        !all_ok(results),
        first_failure(results) == at,
{
    let chosen = first_failure(results);
    assert(fails_first_at(results, chosen));
    if chosen < at {
        assert(results[chosen] is Ok);
    } else if at < chosen {
        assert(results[at] is Ok);
    }
}

/// The failure of the token at `at`.
pub open spec fn dependency_error(e: TokenError, at: int) -> TxError {
    match e {
        TokenError::Malformed => TxError::MalformedDependency { at: at as usize },
        TokenError::Hash => TxError::InvalidHash { at: at as usize },
        TokenError::Index => TxError::InvalidIndex { at: at as usize },
    }
}

/// What each token writes.
pub open spec fn dependency_results(tokens: Seq<Seq<char>>) -> Seq<
    Result<OutPointModel, TokenError>,
> {
    Seq::new(tokens.len(), |i: int| parse_dependency(tokens[i]))
}

/// What a list of dependency tokens writes: all of their `OutPoint`s in
/// order, or the failure of the first token that writes none.
pub open spec fn parse_dependencies(tokens: Seq<Seq<char>>) -> Result<Seq<OutPointModel>, TxError> {
    let results = dependency_results(tokens);
    if all_ok(results) {
        Ok(values(results))
    } else {
        let at = first_failure(results);
        Err(dependency_error(results[at]->Err_0, at))
    }
}

/// The failure of the name at `at` of `list`: a name that is not known is
/// an unknown reference.
pub open spec fn reference_error(e: TxError, list: NameList, at: int) -> TxError {
    if e == TxError::NotFound {
        TxError::UnknownReference { list, at: at as usize }
    } else {
        e
    }
}

/// What each name stands for.
pub open spec fn reference_results<T>(
    records: Map<Seq<char>, Record<T>>,
    names: Seq<Seq<char>>,
) -> Seq<Result<T, TxError>> {
    Seq::new(names.len(), |i: int| resolve(records, names[i]))
}

/// What a list of names stands for: all of their values in order, or the
/// failure of the first name that stands for none.
pub open spec fn resolve_names<T>(
    records: Map<Seq<char>, Record<T>>,
    names: Seq<Seq<char>>,
    list: NameList,
) -> Result<Seq<T>, TxError> {
    let results = reference_results(records, names);
    if all_ok(results) {
        Ok(values(results))
    } else {
        let at = first_failure(results);
        Err(reference_error(results[at]->Err_0, list, at))
    }
}

/// Reads a list of dependency tokens.
pub fn read_dependencies(tokens: &Vec<String>) -> (r: Result<Vec<OutPoint>, TxError>)
    ensures
        match r {
            Ok(deps) => parse_dependencies(models(tokens@)) == Ok::<Seq<OutPointModel>, TxError>(
                models(deps@),
            ),
            Err(e) => parse_dependencies(models(tokens@)) == Err::<Seq<OutPointModel>, TxError>(e),
        },
{
    let ghost results = dependency_results(models(tokens@));
    let mut deps: Vec<OutPoint> = Vec::new();
    let mut i: usize = 0;
    while i < tokens.len()
        invariant
            i <= tokens.len(),
            results == dependency_results(models(tokens@)),
            deps.len() == i,
            forall|j: int| 0 <= j < i ==> (#[trigger] results[j]) == Ok::<OutPointModel, TokenError>(deps@[j]@),
        decreases tokens.len() - i,
    {
        match OutPoint::parse(tokens[i].as_str()) {
            Ok(out_point) => {
                deps.push(out_point);
            },
            Err(e) => {
                proof {
                    lemma_first_failure(results, i as int);
                }
                return Err(
                    match e {
                        TokenError::Malformed => TxError::MalformedDependency { at: i },
                        TokenError::Hash => TxError::InvalidHash { at: i },
                        TokenError::Index => TxError::InvalidIndex { at: i },
                    },
                );
            },
        }
        i = i + 1;
    }
    assert(values(results) =~= models(deps@));
    Ok(deps)
}

} // verus!
