//! The decisions of one fetch cycle: which endpoints to ask, and what the
//! answers amount to.
//!
//! A cycle asks the list endpoint once, then asks the detail endpoint of
//! every listed runner, all at the same time. The details are gathered in the
//! order in which they arrive. One failure fails the whole cycle: there is no
//! partial result. Sending the requests is left to the caller; this module
//! decides what is sent and what comes of the answers.

use vstd::prelude::*;
use url::{ParseError, Url};
use crate::config::StartupConfigError;
use crate::model::{Runner, RunnerDetails};
use crate::text::{decimal, decimal_string};

verus! {

/// The error with which `url` rejects a text. Nothing of it is read here.
#[verifier::external_type_specification]
#[verifier::external_body]
pub struct ExParseError(ParseError);

/// Why a fetch cycle failed.
#[derive(Clone, Copy, Debug, PartialEq, Eq, Structural)]
pub enum FetchError {
    /// A request could not be sent, or no answer came.
    Transport,
    /// An answer was not the JSON that was expected.
    Decode,
    /// The detail endpoint of a runner could not be formed.
    InvalidUrl,
}

/// The serialization of the URL that `url::Url::parse` reads from `text`,
/// and `None` where it rejects the text.
pub uninterp spec fn parsed_url(text: Seq<char>) -> Option<Seq<char>>;

/// The serialization of the URL that `url::Url::join` gives for `reference`
/// on the URL that `url::Url::parse` reads from `base`, and `None` where
/// either rejects its text.
pub uninterp spec fn joined_url(base: Seq<char>, reference: Seq<char>) -> Option<Seq<char>>;

/// Calls `url::Url::parse` and hands back the URL's serialization. The
/// contract claims only that the outcome is the one named `parsed_url`: a
/// function of the text alone.
#[verifier::external_body]
fn parse_url(text: &str) -> (result: Result<String, ParseError>)
    ensures
        match result {
            Ok(url) => parsed_url(text@) == Some(url@),
            Err(_) => parsed_url(text@) is None,
        },
{
    match Url::parse(text) {
        Ok(url) => Ok(String::from(url)),
        Err(error) => Err(error),
    }
}

/// Calls `url::Url::join` on the URL that `url::Url::parse` reads from
/// `base`, and hands back the joined URL's serialization. The contract
/// claims only that the outcome is the one named `joined_url`: a function of
/// the two texts alone.
#[verifier::external_body]
fn join_url(base: &str, reference: &str) -> (result: Result<String, ParseError>)
    ensures
        match result {
            Ok(url) => joined_url(base@, reference@) == Some(url@),
            Err(_) => joined_url(base@, reference@) is None,
        },
{
    match Url::parse(base) {
        Ok(base) => match base.join(reference) {
            Ok(url) => Ok(String::from(url)),
            Err(error) => Err(error),
        },
        Err(error) => Err(error),
    }
}

/// The text from which the list endpoint of a host is read.
pub open spec fn list_endpoint_text(host: Seq<char>) -> Seq<char> {
    "https://"@ + host + "/api/v4/runners/"@
}

/// The list endpoint of a host: the URL read from `https://`, the host and
/// the path of the runners, and none where that text is no URL.
pub open spec fn list_endpoint_of(host: Seq<char>) -> Option<Seq<char>> {
    parsed_url(list_endpoint_text(host))
}

/// The detail endpoint of a runner: the list endpoint joined with the
/// runner's id in decimal, and none where the two do not join.
pub open spec fn detail_endpoint_of(list_endpoint: Seq<char>, id: nat) -> Option<Seq<char>> {
    joined_url(list_endpoint, decimal(id))
}

/// The number of runners asked for in the one page that is fetched.
pub const PAGE_SIZE: usize = 100;

/// How long a request may take, in seconds. A request that takes longer
/// counts as a transport failure.
pub const REQUEST_TIMEOUT_SECONDS: u64 = 30;

/// The name of the header that carries the token.
pub fn token_header() -> (name: &'static str)
    ensures
        name@ == "PRIVATE-TOKEN"@,
{
    "PRIVATE-TOKEN"
}

/// The query parameter of the list request, as name and value: the page
/// size.
pub fn list_query() -> (query: (String, String))
    ensures
        query.0@ == "per_page"@,
        query.1@ == decimal(PAGE_SIZE as nat),
{
    ("per_page".to_owned(), decimal_string(PAGE_SIZE))
}

/// What becomes of a parsed list endpoint: the URL itself, or the startup
/// failure of a host that makes none.
pub fn list_endpoint_from(parsed: Result<String, ParseError>) -> (result: Result<
    String,
    StartupConfigError,
>)
    ensures
        match parsed {
            Ok(url) => result == Ok::<String, StartupConfigError>(url),
            Err(_) => result == Err::<String, StartupConfigError>(StartupConfigError::InvalidHost),
        },
{
    match parsed {
        Ok(url) => Ok(url),
        Err(_) => Err(StartupConfigError::InvalidHost),
    }
}

/// What becomes of a joined detail endpoint: the URL itself, or the failure
/// of the fetch where there is none.
pub fn detail_endpoint_from(joined: Result<String, ParseError>) -> (result: Result<
    String,
    FetchError,
>)
    ensures
        match joined {
            Ok(url) => result == Ok::<String, FetchError>(url),
            Err(_) => result == Err::<String, FetchError>(FetchError::InvalidUrl),
        },
{
    match joined {
        Ok(url) => Ok(url),
        Err(_) => Err(FetchError::InvalidUrl),
    }
}

/// The list endpoint of a host.
pub fn list_endpoint(host: &str) -> (result: Result<String, StartupConfigError>)
    ensures
        match result {
            Ok(url) => list_endpoint_of(host@) == Some(url@),
            Err(error) => error == StartupConfigError::InvalidHost && list_endpoint_of(host@)
                is None,
        },
{
    let mut text = "https://".to_owned();
    text.append(host);
    text.append("/api/v4/runners/");
    list_endpoint_from(parse_url(text.as_str()))
}

/// The detail endpoint of the runner with the given id.
pub fn detail_endpoint(list_endpoint: &str, id: usize) -> (result: Result<String, FetchError>)
    ensures
        match result {
            Ok(url) => detail_endpoint_of(list_endpoint@, id as nat) == Some(url@),
            Err(error) => error == FetchError::InvalidUrl && detail_endpoint_of(
                list_endpoint@,
                id as nat,
            ) is None,
        },
{
    let reference = decimal_string(id);
    detail_endpoint_from(join_url(list_endpoint, reference.as_str()))
}

/// The detail endpoints to ask after the list has arrived: one for each
/// summary, in the order of the list. Where one of them cannot be formed
/// the fetch fails and nothing is asked.
pub fn detail_endpoints(list_endpoint: &str, summaries: &Vec<Runner>) -> (result: Result<
    Vec<String>,
    FetchError,
>)
    ensures
        match result {
            Ok(urls) => {
                &&& urls@.len() == summaries@.len()
                &&& forall|i: int|
                    0 <= i < summaries@.len() ==> detail_endpoint_of(
                        list_endpoint@,
                        #[trigger] summaries@[i].id as nat,
                    ) == Some(urls@[i]@)
            },
            Err(error) => {
                &&& error == FetchError::InvalidUrl
                &&& exists|i: int|
                    0 <= i < summaries@.len() && detail_endpoint_of(
                        list_endpoint@,
                        #[trigger] summaries@[i].id as nat,
                    ) is None
            },
        },
{
    let mut urls: Vec<String> = Vec::new();
    let mut i: usize = 0;
    while i < summaries.len()
        invariant
            i <= summaries.len(),
            urls@.len() == i,
            forall|j: int|
                0 <= j < i ==> detail_endpoint_of(
                    list_endpoint@,
                    #[trigger] summaries@[j].id as nat,
                ) == Some(urls@[j]@),
        decreases summaries.len() - i,
    {
        match detail_endpoint(list_endpoint, summaries[i].id) {
            Ok(url) => {
                urls.push(url);
            },
            Err(error) => {
                assert(detail_endpoint_of(list_endpoint@, summaries@[i as int].id as nat) is None);
                return Err(error);
            },
        }
        i += 1;
    }
    Ok(urls)
}

/// What has been gathered, as plain values: the details so far, or the
/// failure of the fetch.
pub open spec fn gathering(collected: Result<Vec<RunnerDetails>, FetchError>) -> Result<
    Seq<RunnerDetails>,
    FetchError,
> {
    match collected {
        Ok(runners) => Ok(runners@),
        Err(error) => Err(error),
    }
}

/// What has been gathered once one more detail request has completed: a
/// detail is added behind those that arrived before it, a failure fails the
/// fetch, and a fetch that has failed stays failed.
pub open spec fn absorbed(
    collected: Result<Seq<RunnerDetails>, FetchError>,
    completion: Result<RunnerDetails, FetchError>,
) -> Result<Seq<RunnerDetails>, FetchError> {
    match collected {
        Ok(runners) => match completion {
            Ok(runner) => Ok(runners.push(runner)),
            Err(error) => Err(error),
        },
        Err(error) => Err(error),
    }
}

/// What a sequence of completions amounts to, taken in the order in which
/// they arrive.
pub open spec fn gathered(completions: Seq<Result<RunnerDetails, FetchError>>) -> Result<
    Seq<RunnerDetails>,
    FetchError,
>
    decreases completions.len(),
{
    if completions.len() == 0 {
        Ok(Seq::empty())
    } else {
        absorbed(gathered(completions.drop_last()), completions.last())
    }
}

/// The ids of the summaries, in order.
pub open spec fn summary_ids(summaries: Seq<Runner>) -> Seq<usize> {
    summaries.map_values(|r: Runner| r.id)
}

/// The ids of the details, in order.
pub open spec fn detail_ids(runners: Seq<RunnerDetails>) -> Seq<usize> {
    runners.map_values(|r: RunnerDetails| r.id)
}

/// Takes in the completion of one detail request.
pub fn absorb(
    collected: Result<Vec<RunnerDetails>, FetchError>,
    completion: Result<RunnerDetails, FetchError>,
) -> (result: Result<Vec<RunnerDetails>, FetchError>)
    ensures
        gathering(result) == absorbed(gathering(collected), completion),
{
    match collected {
        Ok(runners) => match completion {
            Ok(runner) => {
                let mut runners = runners;
                runners.push(runner);
                Ok(runners)
            },
            Err(error) => Err(error),
        },
        Err(error) => Err(error),
    }
}

/// Gathers the completions of all detail requests, in the order in which
/// they arrived: every detail, or the first failure.
pub fn gather(completions: Vec<Result<RunnerDetails, FetchError>>) -> (result: Result<
    Vec<RunnerDetails>,
    FetchError,
>)
    ensures
        gathering(result) == gathered(completions@),
{
    let mut collected: Result<Vec<RunnerDetails>, FetchError> = Ok(Vec::new());
    for completion in iter: completions.into_iter()
        invariant
            iter.seq() == completions@,
            gathering(collected) == gathered(completions@.take(iter.index() as int)),
    {
        proof {
            let before = completions@.take(iter.index() as int);
            let after = completions@.take(iter.index() + 1);
            assert(after.drop_last() == before);
            assert(after.last() == completion);
        }
        collected = absorb(collected, completion);
    }
    proof {
        assert(completions@.take(completions@.len() as int) == completions@);
    }
    collected
}

/// A gathering succeeds exactly when every completion does, and then holds
/// the details one for one in the order of their arrival. Otherwise it is
/// the first failure to arrive.
pub proof fn lemma_gathered_all_or_first_failure(
    completions: Seq<Result<RunnerDetails, FetchError>>,
)
    ensures
        match gathered(completions) {
            Ok(runners) => {
                &&& runners.len() == completions.len()
                &&& forall|i: int|
                    0 <= i < completions.len() ==> #[trigger] completions[i] == Ok::<
                        RunnerDetails,
                        FetchError,
                    >(runners[i])
            },
            Err(error) => exists|i: int|
                {
                    &&& 0 <= i < completions.len()
                    &&& #[trigger] completions[i] == Err::<RunnerDetails, FetchError>(error)
                    &&& forall|j: int| 0 <= j < i ==> #[trigger] completions[j] is Ok
                },
        },
    decreases completions.len(),
{
    if completions.len() > 0 {
        let earlier = completions.drop_last();
        let last = completions.len() - 1;
        lemma_gathered_all_or_first_failure(earlier);
        match gathered(earlier) {
            Ok(runners) => {
                match completions.last() {
                    Ok(runner) => {
                        assert forall|i: int| 0 <= i < completions.len() implies
                            #[trigger] completions[i] == Ok::<RunnerDetails, FetchError>(
                            runners.push(runner)[i],
                        ) by {
                            if i < last {
                                assert(earlier[i] == completions[i]);
                            }
                        }
                    },
                    Err(error) => {
                        assert forall|j: int| 0 <= j < last implies
                            #[trigger] completions[j] is Ok by {
                            assert(earlier[j] == completions[j]);
                        }
                        assert(completions[last] == Err::<RunnerDetails, FetchError>(error));
                    },
                }
            },
            Err(error) => {
                let i = choose|i: int|
                    {
                        &&& 0 <= i < earlier.len()
                        &&& #[trigger] earlier[i] == Err::<RunnerDetails, FetchError>(error)
                        &&& forall|j: int| 0 <= j < i ==> #[trigger] earlier[j] is Ok
                    };
                assert(completions[i] == earlier[i]);
                assert forall|j: int| 0 <= j < i implies #[trigger] completions[j] is Ok by {
                    assert(earlier[j] == completions[j]);
                }
            },
        }
    }
}

/// If any one detail request fails, the fetch fails: no detail that did
/// arrive is handed on.
pub proof fn lemma_one_failure_fails_all(
    completions: Seq<Result<RunnerDetails, FetchError>>,
    failed: int,
)
    requires
        0 <= failed < completions.len(),
        completions[failed] is Err,
    ensures
        gathered(completions) is Err,
{
    lemma_gathered_all_or_first_failure(completions);
}

/// When every detail request succeeds, the fetch yields the details in the
/// order of their arrival, whatever that order is: as many as there are
/// summaries, and with the same set of ids, provided that the arrivals carry
/// the ids of the summaries, each as often as the list does.
pub proof fn lemma_gather_in_any_order(summaries: Seq<Runner>, arrivals: Seq<RunnerDetails>)
    requires
        detail_ids(arrivals).to_multiset() == summary_ids(summaries).to_multiset(),
    ensures
        gathered(arrivals.map_values(|r: RunnerDetails| Ok::<RunnerDetails, FetchError>(r)))
            == Ok::<Seq<RunnerDetails>, FetchError>(arrivals),
        arrivals.len() == summaries.len(),
        detail_ids(arrivals).to_set() == summary_ids(summaries).to_set(),
{
    let completions = arrivals.map_values(|r: RunnerDetails| Ok::<RunnerDetails, FetchError>(r));
    lemma_gathered_all_or_first_failure(completions);
    let runners = gathered(completions)->Ok_0;
    assert forall|i: int| 0 <= i < arrivals.len() implies runners[i] == arrivals[i] by {
        assert(completions[i] == Ok::<RunnerDetails, FetchError>(runners[i]));
    }
    assert(runners =~= arrivals);
    let arrived = detail_ids(arrivals);
    let listed = summary_ids(summaries);
    arrived.to_multiset_ensures();
    listed.to_multiset_ensures();
    assert forall|id: usize| arrived.to_set().contains(id) <==> listed.to_set().contains(
        id,
    ) by {
        assert(arrived.contains(id) <==> arrived.to_multiset().count(id) > 0);
        assert(listed.contains(id) <==> listed.to_multiset().count(id) > 0);
    }
    assert(arrived.to_set() =~= listed.to_set());
}

} // verus!
