//! Exact-version syntax, what one HTTP answer yields, and the decisions of a
//! fetch that falls back from the registry host to its mirror.

use vstd::prelude::*;
use vstd::string::StrSliceExecFns;
use crate::client::loads;
use crate::error::{Error, FetchError};
use crate::types::NetworksRegistry;
use crate::version::{registry_url, resolve_url, BaseUrls, RegistryVersion};

verus! {

/// The message of a rejected exact version.
pub const VERSION_FORMAT_MESSAGE: &'static str =
    "Version must be in format major.minor[.patch] with valid numbers";

pub open spec fn is_digit(c: char) -> bool {
    '0' <= c && c <= '9'
}

/// The parts of `s` between dots, in order; `n` dots give `n + 1` parts,
/// some of them possibly empty.
pub open spec fn split_dots(s: Seq<char>) -> Seq<Seq<char>>
    decreases s.len(),
{
    if s.len() == 0 {
        seq![Seq::empty()]
    } else {
        let rest = split_dots(s.drop_last());
        if s.last() == '.' {
            rest.push(Seq::empty())
        } else {
            rest.update(rest.len() - 1, rest.last().push(s.last()))
        }
    }
}

/// One number of a version: decimal digits only, at least one.
pub open spec fn valid_segment(s: Seq<char>) -> bool {
    &&& s.len() > 0
    &&& forall|i: int| 0 <= i < s.len() ==> is_digit(#[trigger] s[i])
}

/// `major.minor` or `major.minor.patch`.
pub open spec fn valid_version(s: Seq<char>) -> bool {
    let parts = split_dots(s);
    &&& 2 <= parts.len() <= 3
    &&& forall|k: int| 0 <= k < parts.len() ==> valid_segment(#[trigger] parts[k])
}

proof fn lemma_split_dots_nonempty(s: Seq<char>)
    ensures
        split_dots(s).len() >= 1,
    decreases s.len(),
{
    if s.len() > 0 {
        lemma_split_dots_nonempty(s.drop_last());
    }
}

/// Checks that an exact version is `major.minor[.patch]`, each part one or
/// more decimal digits.
pub fn validate_version(version: &str) -> (r: Result<(), FetchError>)
    ensures
        r is Ok <==> valid_version(version@),
        r matches Err(e) ==> e matches FetchError::InvalidVersionFormat(m) && m@
            == VERSION_FORMAT_MESSAGE@,
{
    let n = version.unicode_len();
    let ghost s = version@;
    // number of parts so far, and what is known of the last one
    let mut count: usize = 1;
    let mut earlier_ok = true;
    let mut cur_len: usize = 0;
    let mut digits = true;
    let mut i: usize = 0;
    assert(s.subrange(0, 0) =~= Seq::<char>::empty());
    while i < n
        invariant
            n == s.len(),
            s == version@,
            i <= n,
            1 <= count <= 4,
            cur_len <= i,
            split_dots(s.subrange(0, i as int)).len() >= 1,
            count == if split_dots(s.subrange(0, i as int)).len() <= 4 {
                split_dots(s.subrange(0, i as int)).len()
            } else {
                4
            },
            earlier_ok <==> forall|k: int|
                0 <= k < split_dots(s.subrange(0, i as int)).len() - 1 ==> valid_segment(
                    #[trigger] split_dots(s.subrange(0, i as int))[k],
                ),
            split_dots(s.subrange(0, i as int)).last().len() == cur_len,
            digits <==> forall|j: int|
                0 <= j < cur_len ==> is_digit(
                    #[trigger] split_dots(s.subrange(0, i as int)).last()[j],
                ),
        decreases n - i,
    {
        let c = version.get_char(i);
        let ghost prev = split_dots(s.subrange(0, i as int));
        let ghost next = split_dots(s.subrange(0, i + 1));
        assert(s.subrange(0, i + 1).drop_last() =~= s.subrange(0, i as int));
        assert(s.subrange(0, i + 1).last() == c);
        proof {
            lemma_split_dots_nonempty(s.subrange(0, i as int));
        }
        if c == '.' {
            assert(next == prev.push(Seq::empty()));
            let last_ok = cur_len > 0 && digits;
            assert(last_ok <==> valid_segment(prev.last()));
            assert(earlier_ok && last_ok <==> forall|k: int|
                0 <= k < prev.len() ==> valid_segment(#[trigger] next[k])) by {
                assert forall|k: int| 0 <= k < prev.len() implies next[k] == prev[k] by {}
                if earlier_ok && last_ok {
                    assert forall|k: int| 0 <= k < prev.len() implies valid_segment(
                        #[trigger] next[k],
                    ) by {
                        if k < prev.len() - 1 {
                            assert(valid_segment(prev[k]));
                        }
                    }
                }
                if !earlier_ok {
                    let k = choose|k: int|
                        0 <= k < prev.len() - 1 && !valid_segment(#[trigger] prev[k]);
                    assert(next[k] == prev[k]);
                }
                if !last_ok {
                    assert(next[prev.len() - 1] == prev.last());
                }
            }
            earlier_ok = earlier_ok && last_ok;
            if count < 4 {
                count = count + 1;
            }
            cur_len = 0;
            digits = true;
        } else {
            let ghost cur = prev.last();
            assert(next == prev.update(prev.len() - 1, cur.push(c)));
            assert(next.last() == cur.push(c));
            assert(cur.push(c).drop_last() =~= cur);
            assert forall|k: int| 0 <= k < prev.len() - 1 implies next[k] == prev[k] by {}
            let d = is_digit_char(c);
            assert(digits && d <==> forall|j: int|
                0 <= j < cur_len + 1 ==> is_digit(#[trigger] next.last()[j])) by {
                if digits && d {
                    assert forall|j: int| 0 <= j < cur_len + 1 implies is_digit(
                        #[trigger] next.last()[j],
                    ) by {
                        if j < cur_len {
                            assert(next.last()[j] == cur[j]);
                        }
                    }
                } else if !digits {
                    let j = choose|j: int| 0 <= j < cur_len && !is_digit(#[trigger] cur[j]);
                    assert(next.last()[j] == cur[j]);
                } else {
                    assert(next.last()[cur_len as int] == c);
                }
            }
            digits = digits && d;
            cur_len = cur_len + 1;
        }
        i = i + 1;
    }
    assert(s.subrange(0, n as int) =~= s);
    proof {
        lemma_split_dots_nonempty(s);
    }
    let last_ok = cur_len > 0 && digits;
    assert(last_ok <==> valid_segment(split_dots(s).last()));
    if 2 <= count && count <= 3 && earlier_ok && last_ok {
        assert forall|k: int| 0 <= k < count implies valid_segment(#[trigger] split_dots(s)[k]) by {
            if k < split_dots(s).len() - 1 {
                assert(valid_segment(split_dots(s)[k]));
            }
        }
        Ok(())
    } else {
        Err(FetchError::InvalidVersionFormat(VERSION_FORMAT_MESSAGE.to_owned()))
    }
}

fn is_digit_char(c: char) -> (r: bool)
    ensures
        r == is_digit(c),
{
    '0' <= c && c <= '9'
}

/// What the transport reported for one GET request.
#[derive(Debug)]
pub enum Response {
    /// The request did not complete; the transport's message.
    Failed(String),
    /// The server answered with this status and body.
    Received { status: u16, body: String },
}

/// What one request gives: a transport failure or a status outside
/// 200..=299 is an HTTP error; otherwise the body is loaded as a registry.
pub open spec fn attempt(resp: Response, r: Result<NetworksRegistry, Error>) -> bool {
    match resp {
        Response::Failed(m) => r == Err::<NetworksRegistry, Error>(Error::Http(FetchError::Request(m))),
        Response::Received { status, body } => if 200 <= status <= 299 {
            loads(body@, r)
        } else {
            r == Err::<NetworksRegistry, Error>(Error::Http(FetchError::InvalidStatusCode(status)))
        },
    }
}

/// The registry that one answer holds, or why it holds none.
pub fn registry_from_response(resp: Response) -> (r: Result<NetworksRegistry, Error>)
    ensures
        attempt(resp, r),
{
    match resp {
        Response::Failed(m) => Err(Error::Http(FetchError::Request(m))),
        Response::Received { status, body } => {
            if 200 <= status && status <= 299 {
                NetworksRegistry::from_json(&body)
            } else {
                Err(Error::Http(FetchError::InvalidStatusCode(status)))
            }
        },
    }
}

/// Where a fetch stands.
#[derive(Debug)]
pub enum FetchState {
    /// Waiting for the registry host's answer.
    AwaitingPrimary,
    /// Waiting for the mirror's answer; holds the registry host's failure.
    AwaitingFallback(Error),
    /// Over: no request is outstanding.
    Finished,
}

/// What the caller does next.
#[derive(Debug)]
pub enum FetchAction {
    /// Send a GET request to this URL and hand its result to `advance`.
    Get(String),
    /// The fetch is over, with this result.
    Finish(Result<NetworksRegistry, Error>),
}

/// The decisions of one fetch of a registry document: the registry host is
/// asked first; the mirror only once that failed; when both fail, the
/// registry host's failure is the result.
#[derive(Debug)]
pub struct RegistryFetch {
    pub primary_url: String,
    pub fallback_url: String,
    pub state: FetchState,
}

/// The state after an answer in state `s`.
pub open spec fn next_state(s: FetchState, r: Result<NetworksRegistry, Error>) -> FetchState {
    match s {
        FetchState::AwaitingPrimary => match r {
            Ok(_) => FetchState::Finished,
            Err(e) => FetchState::AwaitingFallback(e),
        },
        _ => FetchState::Finished,
    }
}

/// The action after an answer, in the state of `f`.
pub open spec fn next_action(f: RegistryFetch, r: Result<NetworksRegistry, Error>) -> FetchAction {
    match f.state {
        FetchState::AwaitingPrimary => match r {
            Ok(x) => FetchAction::Finish(Ok(x)),
            Err(_) => FetchAction::Get(f.fallback_url),
        },
        FetchState::AwaitingFallback(primary_error) => match r {
            Ok(x) => FetchAction::Finish(Ok(x)),
            Err(_) => FetchAction::Finish(Err(primary_error)),
        },
        FetchState::Finished => FetchAction::Finish(r),
    }
}

/// The actions that follow the answers `rs`, one by one, from `f` on; the
/// answers after the end are not looked at.
pub open spec fn actions_after(f: RegistryFetch, rs: Seq<Result<NetworksRegistry, Error>>) -> Seq<
    FetchAction,
>
    decreases rs.len(),
{
    if rs.len() == 0 || f.state is Finished {
        Seq::empty()
    } else {
        let g = RegistryFetch {
            primary_url: f.primary_url,
            fallback_url: f.fallback_url,
            state: next_state(f.state, rs[0]),
        };
        seq![next_action(f, rs[0])] + actions_after(g, rs.drop_first())
    }
}

/// What starting a fetch of `version` from the hosts `urls` gives: the fetch
/// `f` and its first action `a`.
pub open spec fn started(version: RegistryVersion, urls: BaseUrls, f: RegistryFetch, a: FetchAction) -> bool {
    &&& f.primary_url@ == registry_url(urls.primary@, version)
    &&& f.fallback_url@ == registry_url(urls.fallback@, version)
    &&& (version matches RegistryVersion::Exact(v) && !valid_version(v@)) ==> {
        &&& f.state is Finished
        &&& a matches FetchAction::Finish(Err(Error::InvalidVersionFormat(m)))
        &&& m@ == VERSION_FORMAT_MESSAGE@
    }
    &&& !(version matches RegistryVersion::Exact(v) && !valid_version(v@)) ==> {
        &&& f.state is AwaitingPrimary
        &&& a == FetchAction::Get(f.primary_url)
    }
}

/// When the registry host fails and the mirror then serves a document, a
/// fetch that made its first request (the latest version, or an exact one
/// of valid format) asks the registry host once, then the mirror once, and
/// ends with the mirror's document; answers after that are not looked at.
pub proof fn lemma_fallback_serves(
    version: RegistryVersion,
    urls: BaseUrls,
    f: RegistryFetch,
    a: FetchAction,
    primary_error: Error,
    doc: NetworksRegistry,
    more: Seq<Result<NetworksRegistry, Error>>,
)
    requires
        started(version, urls, f, a),
        a is Get,
    ensures
        seq![a] + actions_after(f, seq![Err(primary_error), Ok(doc)] + more) == seq![
            FetchAction::Get(f.primary_url),
            FetchAction::Get(f.fallback_url),
            FetchAction::Finish(Ok(doc)),
        ],
{
    let rs = seq![Err(primary_error), Ok(doc)] + more;
    let g = RegistryFetch {
        primary_url: f.primary_url,
        fallback_url: f.fallback_url,
        state: next_state(f.state, rs[0]),
    };
    let h = RegistryFetch {
        primary_url: f.primary_url,
        fallback_url: f.fallback_url,
        state: next_state(g.state, rs.drop_first()[0]),
    };
    assert(rs.drop_first()[0] == Ok::<NetworksRegistry, Error>(doc));
    assert(h.state is Finished);
    assert(actions_after(h, rs.drop_first().drop_first()) == Seq::<FetchAction>::empty());
    assert(actions_after(g, rs.drop_first()) =~= seq![FetchAction::Finish(Ok(doc))]);
    assert(actions_after(f, rs) =~= seq![
        FetchAction::Get(f.fallback_url),
        FetchAction::Finish(Ok(doc)),
    ]);
}

/// When both hosts fail, a fetch that made its first request asks each host
/// once and ends with the registry host's failure, not the mirror's.
pub proof fn lemma_primary_failure_wins(
    version: RegistryVersion,
    urls: BaseUrls,
    f: RegistryFetch,
    a: FetchAction,
    primary_error: Error,
    fallback_error: Error,
    more: Seq<Result<NetworksRegistry, Error>>,
)
    requires
        started(version, urls, f, a),
        a is Get,
    ensures
        seq![a] + actions_after(f, seq![Err(primary_error), Err(fallback_error)] + more) == seq![
            FetchAction::Get(f.primary_url),
            FetchAction::Get(f.fallback_url),
            FetchAction::Finish(Err(primary_error)),
        ],
{
    let rs = seq![Err(primary_error), Err(fallback_error)] + more;
    let g = RegistryFetch {
        primary_url: f.primary_url,
        fallback_url: f.fallback_url,
        state: next_state(f.state, rs[0]),
    };
    let h = RegistryFetch {
        primary_url: f.primary_url,
        fallback_url: f.fallback_url,
        state: next_state(g.state, rs.drop_first()[0]),
    };
    assert(rs[0] == Err::<NetworksRegistry, Error>(primary_error));
    assert(rs.drop_first()[0] == Err::<NetworksRegistry, Error>(fallback_error));
    assert(h.state is Finished);
    assert(actions_after(h, rs.drop_first().drop_first()) == Seq::<FetchAction>::empty());
    assert(actions_after(g, rs.drop_first()) =~= seq![FetchAction::Finish(Err(primary_error))]);
    assert(actions_after(f, rs) =~= seq![
        FetchAction::Get(f.fallback_url),
        FetchAction::Finish(Err(primary_error)),
    ]);
}

impl RegistryFetch {
    /// Starts a fetch of `version` from the hosts `urls`. An exact version
    /// that is not `major.minor[.patch]` ends it before any request.
    pub fn start(version: &RegistryVersion, urls: &BaseUrls) -> (r: (RegistryFetch, FetchAction))
        ensures
            started(*version, *urls, r.0, r.1),
    {
        let primary_url = resolve_url(&urls.primary, version);
        let fallback_url = resolve_url(&urls.fallback, version);
        if let RegistryVersion::Exact(v) = version {
            if let Err(_) = validate_version(v) {
                let f = RegistryFetch { primary_url, fallback_url, state: FetchState::Finished };
                let message = VERSION_FORMAT_MESSAGE.to_owned();
                return (f, FetchAction::Finish(Err(Error::InvalidVersionFormat(message))));
            }
        }
        let first = primary_url.clone();
        (RegistryFetch { primary_url, fallback_url, state: FetchState::AwaitingPrimary }, FetchAction::Get(first))
    }

    /// Takes the result of the request that the last action asked for. Once
    /// the fetch is over, a further result is handed back as it is.
    pub fn advance(&mut self, r: Result<NetworksRegistry, Error>) -> (a: FetchAction)
        ensures
            a == next_action(*old(self), r),
            final(self).state == next_state(old(self).state, r),
            final(self).primary_url == old(self).primary_url,
            final(self).fallback_url == old(self).fallback_url,
    {
        let mut state = FetchState::Finished;
        std::mem::swap(&mut self.state, &mut state);
        match state {
            FetchState::AwaitingPrimary => match r {
                Ok(x) => FetchAction::Finish(Ok(x)),
                Err(e) => {
                    self.state = FetchState::AwaitingFallback(e);
                    FetchAction::Get(self.fallback_url.clone())
                },
            },
            FetchState::AwaitingFallback(primary_error) => match r {
                Ok(x) => FetchAction::Finish(Ok(x)),
                Err(_) => FetchAction::Finish(Err(primary_error)),
            },
            FetchState::Finished => FetchAction::Finish(r),
        }
    }
}

} // verus!
