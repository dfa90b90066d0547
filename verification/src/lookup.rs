//! Which applications a lookup hands back, given what the system found.
//!
//! Launch Services answers with URLs and Spotlight with items; the path of
//! each is asked for one by one, and not every one has a path. A function
//! here takes those answers in the order in which the system gave them: a
//! path of any type `P`, and an error of any type `E`.

use vstd::prelude::*;

verus! {

/// The paths among what was found, in the order in which they were found:
/// what has no path is left out.
pub open spec fn paths_of<P>(found: Seq<Option<P>>) -> Seq<P> {
    found.filter_map(|item: Option<P>| item)
}

/// The candidates that were accepted, in their order.
pub open spec fn accepted_of<P>(candidates: Seq<(P, bool)>) -> Seq<P> {
    candidates.filter_map(
        |candidate: (P, bool)|
            if candidate.1 {
                Some(candidate.0)
            } else {
                None
            },
    )
}

/// A list, unless it is empty.
pub open spec fn non_empty<P>(apps: Seq<P>) -> Option<Seq<P>> {
    if apps.len() == 0 {
        None
    } else {
        Some(apps)
    }
}

/// The first of a list, if there is a list and it has one.
pub open spec fn first_of<P>(apps: Option<Seq<P>>) -> Option<P> {
    match apps {
        Some(apps) if apps.len() > 0 => Some(apps[0]),
        _ => None,
    }
}

/// A list that may be missing, as a sequence.
pub open spec fn seq_of<P>(apps: Option<Vec<P>>) -> Option<Seq<P>> {
    match apps {
        Some(apps) => Some(apps@),
        None => None,
    }
}

/// Keeps what has a path.
pub fn paths<P>(found: Vec<Option<P>>) -> (r: Vec<P>)
    ensures
        r@ == paths_of(found@),
{
    let mut r: Vec<P> = Vec::new();
    for item in it: found
        invariant
            it.seq() == found@,
            r@ == paths_of(found@.take(it.index())),
    {
        proof {
            let next = found@.take(it.index() + 1);
            assert(next.drop_last() == found@.take(it.index()));
            assert(next.last() == item);
        }
        if let Some(path) = item {
            r.push(path);
        }
    }
    proof {
        assert(found@.take(found@.len() as int) == found@);
    }
    r
}

/// Keeps the candidates that were accepted.
pub fn accepted<P>(candidates: Vec<(P, bool)>) -> (r: Vec<P>)
    ensures
        r@ == accepted_of(candidates@),
{
    let mut r: Vec<P> = Vec::new();
    for candidate in it: candidates
        invariant
            it.seq() == candidates@,
            r@ == accepted_of(candidates@.take(it.index())),
    {
        proof {
            let next = candidates@.take(it.index() + 1);
            assert(next.drop_last() == candidates@.take(it.index()));
            assert(next.last() == candidate);
        }
        if candidate.1 {
            r.push(candidate.0);
        }
    }
    proof {
        assert(candidates@.take(candidates@.len() as int) == candidates@);
    }
    r
}

/// Takes the first application out of a list.
pub fn first<P>(apps: Option<Vec<P>>) -> (r: Option<P>)
    ensures
        r == first_of(seq_of(apps)),
{
    match apps {
        None => None,
        Some(mut apps) => {
            if apps.is_empty() {
                None
            } else {
                Some(apps.remove(0))
            }
        },
    }
}

/// The applications that can handle a scheme: the paths among the URLs that
/// were found, be they none.
pub open spec fn scheme_apps<P>(found: Option<Vec<Option<P>>>) -> Option<Seq<P>> {
    match found {
        Some(urls) => Some(paths_of(urls@)),
        None => None,
    }
}

/// All the applications that can handle a scheme.
///
/// `found` holds the path, if it has one, of each URL that Launch Services
/// listed for the scheme's URL. It is `None` where the scheme gave no URL or
/// Launch Services gave no list, and then there is no answer.
pub fn apps_for_scheme<P>(found: Option<Vec<Option<P>>>) -> (r: Option<Vec<P>>)
    ensures
        seq_of(r) == scheme_apps(found),
{
    match found {
        Some(urls) => Some(paths(urls)),
        None => None,
    }
}

/// The default handler of a scheme.
///
/// `found` holds what Launch Services answered for the scheme's URL: the
/// path, if it has one, of the application that it named, or its error. It is
/// `None` where the scheme gave no URL. Only a path is an answer.
pub fn app_for_scheme<P, E>(found: Option<Result<Option<P>, E>>) -> (r: Option<P>)
    ensures
        r == match found {
            Some(Ok(Some(path))) => Some(path),
            _ => None,
        },
{
    match found {
        Some(Ok(path)) => path,
        _ => None,
    }
}

/// The applications with a bundle identifier: the paths among the URLs that
/// were found, be they none, and nothing after an error.
pub open spec fn bundle_apps<P, E>(found: Result<Vec<Option<P>>, E>) -> Option<Seq<P>> {
    match found {
        Ok(urls) => Some(paths_of(urls@)),
        Err(_) => None,
    }
}

/// All the applications with a bundle identifier.
///
/// `found` holds the path, if it has one, of each URL that Launch Services
/// listed for the identifier, or its error.
pub fn apps_for_bundle_id<P, E>(found: Result<Vec<Option<P>>, E>) -> (r: Option<Vec<P>>)
    ensures
        seq_of(r) == bundle_apps(found),
{
    match found {
        Ok(urls) => Some(paths(urls)),
        Err(_) => None,
    }
}

/// The first application with a bundle identifier, from the same answer as
/// `apps_for_bundle_id` takes.
pub fn app_for_bundle_id<P, E>(found: Result<Vec<Option<P>>, E>) -> (r: Option<P>)
    ensures
        r == first_of(bundle_apps(found)),
{
    first(apps_for_bundle_id(found))
}

/// The applications with a display name: the paths among the items that were
/// found, and nothing rather than an empty list.
pub open spec fn named_apps<P>(found: Option<Vec<Option<P>>>) -> Option<Seq<P>> {
    match found {
        Some(items) => non_empty(paths_of(items@)),
        None => None,
    }
}

/// All the applications with a display name.
///
/// `found` holds the path, if it has one, of each item that the query for the
/// name found. It is `None` where the query could not be made.
pub fn apps_for_name<P>(found: Option<Vec<Option<P>>>) -> (r: Option<Vec<P>>)
    ensures
        seq_of(r) == named_apps(found),
{
    match found {
        Some(items) => {
            let apps = paths(items);
            if apps.len() == 0 {
                None
            } else {
                Some(apps)
            }
        },
        None => None,
    }
}

/// The first application with a display name, from the same answer as
/// `apps_for_name` takes.
pub fn app_for_name<P>(found: Option<Vec<Option<P>>>) -> (r: Option<P>)
    ensures
        r == first_of(named_apps(found)),
{
    first(apps_for_name(found))
}

/// Launch Services was asked, and said that the application accepts the URL.
pub open spec fn says_yes<E>(answer: Result<bool, E>) -> bool {
    answer == Ok::<bool, E>(true)
}

/// Whether an application can handle a URL.
///
/// `answer` holds what Launch Services said of the two. It is `None` where it
/// was not asked, because the application or the URL could not be converted.
pub fn app_accept_url<E>(answer: Option<Result<bool, E>>) -> (r: bool)
    ensures
        r == (answer matches Some(said) && says_yes(said)),
{
    match answer {
        Some(Ok(accepts)) => accepts,
        _ => false,
    }
}

/// Launch Services said yes to every URL.
pub open spec fn all_accepted<E>(answers: Seq<Result<bool, E>>) -> bool {
    forall|i: int| 0 <= i < answers.len() ==> says_yes(#[trigger] answers[i])
}

/// Whether an application can handle all the URLs of a list.
///
/// `answers` holds what Launch Services said of the application and each URL.
/// It is `None` where it was not asked, because the application or one of the
/// URLs could not be converted. Of no URLs at all the answer is yes.
pub fn app_accept_urls<E>(answers: Option<Vec<Result<bool, E>>>) -> (r: bool)
    ensures
        r == (answers matches Some(list) && all_accepted(list@)),
{
    match answers {
        None => false,
        Some(list) => {
            for answer in it: list
                invariant
                    it.seq() == list@,
                    answers == Some(list),
                    all_accepted(list@.take(it.index())),
            {
                match answer {
                    Ok(true) => {},
                    _ => {
                        assert(!says_yes(list@[it.index()]));
                        return false;
                    },
                }
                proof {
                    let next = list@.take(it.index() + 1);
                    assert forall|i: int| 0 <= i < next.len() implies says_yes(
                        #[trigger] next[i],
                    ) by {
                        if i < it.index() {
                            assert(next[i] == list@.take(it.index())[i]);
                        }
                    }
                }
            }
            proof {
                assert(list@.take(list@.len() as int) == list@);
            }
            true
        },
    }
}

/// The applications with a display name that accept the URLs: those among
/// the items that were found that have a path and were accepted, and nothing
/// rather than an empty list.
pub open spec fn named_apps_accepting<P>(found: Option<Vec<Option<(P, bool)>>>) -> Option<Seq<P>> {
    match found {
        Some(items) => non_empty(accepted_of(paths_of(items@))),
        None => None,
    }
}

/// All the applications with a display name that can open the URLs.
///
/// `found` holds, for each item that the query for the name found, its path,
/// if it has one, and whether the application there accepts the URLs. It is
/// `None` where the query could not be made.
pub fn apps_for_name_accepting_urls<P>(found: Option<Vec<Option<(P, bool)>>>) -> (r: Option<
    Vec<P>,
>)
    ensures
        seq_of(r) == named_apps_accepting(found),
{
    match apps_for_name(found) {
        Some(candidates) => {
            let apps = accepted(candidates);
            if apps.is_empty() {
                None
            } else {
                Some(apps)
            }
        },
        None => None,
    }
}

/// The first application with a display name that can open the URLs, from
/// the same answer as `apps_for_name_accepting_urls` takes.
pub fn app_for_name_accepting_urls<P>(found: Option<Vec<Option<(P, bool)>>>) -> (r: Option<P>)
    ensures
        r == first_of(named_apps_accepting(found)),
{
    first(apps_for_name_accepting_urls(found))
}

/// The applications with a bundle identifier that accept the URLs: those
/// among the URLs that were found that have a path and were accepted, and
/// nothing rather than an empty list or after an error.
pub open spec fn bundle_apps_accepting<P, E>(found: Result<Vec<Option<(P, bool)>>, E>) -> Option<
    Seq<P>,
> {
    match found {
        Ok(urls) => non_empty(accepted_of(paths_of(urls@))),
        Err(_) => None,
    }
}

/// All the applications with a bundle identifier that can open the URLs.
///
/// `found` holds, for each URL that Launch Services listed for the
/// identifier, its path, if it has one, and whether the application there
/// accepts the URLs; or the error of Launch Services.
pub fn apps_for_bundle_id_accepting_urls<P, E>(found: Result<Vec<Option<(P, bool)>>, E>) -> (r:
    Option<Vec<P>>)
    ensures
        seq_of(r) == bundle_apps_accepting(found),
{
    match apps_for_bundle_id(found) {
        Some(candidates) => {
            let apps = accepted(candidates);
            if apps.is_empty() {
                None
            } else {
                Some(apps)
            }
        },
        None => None,
    }
}

/// The first application with a bundle identifier that can open the URLs,
/// from the same answer as `apps_for_bundle_id_accepting_urls` takes.
pub fn app_for_bundle_id_accepting_urls<P, E>(found: Result<Vec<Option<(P, bool)>>, E>) -> (r:
    Option<P>)
    ensures
        r == first_of(bundle_apps_accepting(found)),
{
    first(apps_for_bundle_id_accepting_urls(found))
}

} // verus!
