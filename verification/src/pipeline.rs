//! The per-request pipeline: what the server decides between decoding a
//! request and finishing it.  A request acquires an admission permit, checks
//! the cache, synthesizes on a miss, and on a hit or a successful miss-fill
//! triggers a background prefetch walk.  The verified core plans the paths
//! and identifiers and drives the state machine; the unverified shell
//! performs the filesystem check and the synthesis call and reports back.
use vstd::prelude::*;
use crate::cache::{cache_key_spec, generate_cache_filename, join_path, joined_path_spec};
use crate::config::GeneralConfig;
use crate::protocol::VoiceRequest;
use crate::registry::{byte_sum, text_item_id, ItemId};
use vstd::utf8::encode_utf8;

verus! {

/// Why a request is refused before any synthesis is attempted.  A failure of
/// the synthesis call itself is not an error of the plan: the pipeline ends
/// in `RequestState::SynthesisFailed` instead.
#[derive(Debug, Clone, Copy, PartialEq, Eq, Structural)]
pub enum ProcessError {
    /// Neither the request nor the configuration names a cache directory.
    NoCacheDirectory,
}

/// Everything about a request the server can compute before touching the
/// filesystem: where the artifact lives and how the request is tracked.
#[derive(Debug)]
pub struct RequestPlan {
    /// The cache directory the request resolves to.
    pub cache_dir: String,
    /// The artifact's file name, derived from the request text.
    pub voice_filename: String,
    /// The full artifact path the cache check and the synthesis use.
    pub cached_path: String,
    /// How the request is tracked in the in-flight registry.  The cache
    /// directory serves as its scope.
    pub item_id: ItemId,
}

/// Resolves the cache directory of a request: the directory the request
/// itself names wins; otherwise the configured one, if any is configured.
pub fn resolve_cache_dir(request_dir: &Option<String>, config_dir: &str) -> (r: Result<
    String,
    ProcessError,
>)
    ensures
        r is Ok <==> (request_dir is Some || config_dir@.len() > 0),
        r matches Ok(d) ==> d@ == (if request_dir is Some {
            request_dir->0@
        } else {
            config_dir@
        }),
        r matches Err(e) ==> e == ProcessError::NoCacheDirectory,
{
    match request_dir {
        Some(d) => Ok(d.clone()),
        None => {
            if !config_dir.is_empty() {
                Ok(String::from_str(config_dir))
            } else {
                Err(ProcessError::NoCacheDirectory)
            }
        },
    }
}

/// Plans a request: resolves the cache directory, derives the artifact name
/// and path from the text, and fixes the in-flight identifier.  Fails exactly
/// when no cache directory is available.
pub fn plan_request(request: &VoiceRequest, config: &GeneralConfig) -> (r: Result<
    RequestPlan,
    ProcessError,
>)
    ensures
        r is Ok <==> (request.cache_dir is Some || config.cache_dir@.len() > 0),
        r matches Ok(plan) ==> {
            &&& plan.cache_dir@ == (if request.cache_dir is Some {
                request.cache_dir->0@
            } else {
                config.cache_dir@
            })
            &&& plan.voice_filename@ == cache_key_spec(encode_utf8(request.text@))
            &&& plan.cached_path@ == joined_path_spec(plan.cache_dir@, plan.voice_filename@)
            &&& plan.item_id == ItemId::Text(byte_sum(encode_utf8(plan.voice_filename@)) as u128)
        },
        r matches Err(e) ==> e == ProcessError::NoCacheDirectory,
{
    let cache_dir = match resolve_cache_dir(&request.cache_dir, config.cache_dir.as_str()) {
        Ok(d) => d,
        Err(e) => {
            return Err(e);
        },
    };
    let voice_filename = generate_cache_filename(request.text.as_str());
    let cached_path = join_path(cache_dir.as_str(), voice_filename.as_str());
    let item_id = text_item_id(voice_filename.as_str().as_bytes());
    Ok(RequestPlan { cache_dir, voice_filename, cached_path, item_id })
}

/// Whether a finished request should trigger a prefetch walk: only when the
/// configuration names a text list and that list actually exists on disk
/// (the shell answers the existence question).
pub fn should_prefetch(text_list_path: &str, list_exists: bool) -> (r: bool)
    ensures
        r == (text_list_path@.len() > 0 && list_exists),
{
    !text_list_path.is_empty() && list_exists
}

/// The states one request moves through.
#[derive(Debug, Clone, Copy, PartialEq, Eq, Structural)]
pub enum RequestState {
    /// Decoded and handed to processing; no permit held yet.
    ReceivedRequest,
    /// Waiting for an admission permit.
    AdmissionPending,
    /// Permit held; the cache is being checked.
    CacheCheck,
    /// The artifact already exists; nothing to synthesize.
    CacheHit,
    /// The artifact is missing; synthesis is running.
    SynthesisPending,
    /// Synthesis succeeded and the artifact is in the cache.
    Done,
    /// Synthesis failed; the request ends in an error.
    SynthesisFailed,
}

/// What the pipeline observes between states.
#[derive(Debug, Clone, Copy, PartialEq, Eq, Structural)]
pub enum RequestEvent {
    /// The decoded request was handed to processing.
    Dispatched,
    /// The admission gate granted a permit.
    PermitAcquired,
    /// The cache check answered whether the artifact exists.
    CacheChecked(bool),
    /// The synthesis call finished, successfully or not.
    SynthesisFinished(bool),
}

/// The request pipeline's transition relation.  An event that a state does
/// not expect leaves the state as it is.
pub open spec fn advance_spec(s: RequestState, e: RequestEvent) -> RequestState {
    match (s, e) {
        (RequestState::ReceivedRequest, RequestEvent::Dispatched) => RequestState::AdmissionPending,
        (RequestState::AdmissionPending, RequestEvent::PermitAcquired) => RequestState::CacheCheck,
        (RequestState::CacheCheck, RequestEvent::CacheChecked(true)) => RequestState::CacheHit,
        (RequestState::CacheCheck, RequestEvent::CacheChecked(false)) => RequestState::SynthesisPending,
        (RequestState::SynthesisPending, RequestEvent::SynthesisFinished(true)) => RequestState::Done,
        (RequestState::SynthesisPending, RequestEvent::SynthesisFinished(false)) => RequestState::SynthesisFailed,
        _ => s,
    }
}

/// Advances the pipeline by one observed event.
pub fn advance(s: RequestState, e: RequestEvent) -> (r: RequestState)
    ensures
        r == advance_spec(s, e),
{
    match (s, e) {
        (RequestState::ReceivedRequest, RequestEvent::Dispatched) => RequestState::AdmissionPending,
        (RequestState::AdmissionPending, RequestEvent::PermitAcquired) => RequestState::CacheCheck,
        (RequestState::CacheCheck, RequestEvent::CacheChecked(true)) => RequestState::CacheHit,
        (RequestState::CacheCheck, RequestEvent::CacheChecked(false)) => RequestState::SynthesisPending,
        (RequestState::SynthesisPending, RequestEvent::SynthesisFinished(true)) => RequestState::Done,
        (RequestState::SynthesisPending, RequestEvent::SynthesisFinished(false)) => RequestState::SynthesisFailed,
        (s2, _) => s2,
    }
}

/// Whether a state asks the shell to run the synthesis call.
pub open spec fn requires_synthesis(s: RequestState) -> bool {
    s == RequestState::SynthesisPending
}

/// Whether a state ends the request with the artifact present, which is when
/// a background prefetch walk may start.
pub open spec fn triggers_prefetch_spec(s: RequestState) -> bool {
    s == RequestState::CacheHit || s == RequestState::Done
}

/// Whether a finished state triggers the background prefetch walk.
pub fn triggers_prefetch(s: RequestState) -> (r: bool)
    ensures
        r == triggers_prefetch_spec(s),
{
    match s {
        RequestState::CacheHit => true,
        RequestState::Done => true,
        _ => false,
    }
}

/// Idempotence of the cache-check-then-generate path: once the artifact for
/// a text exists, the cache check settles the request as a hit, and a
/// request only ever reaches synthesis through a cache check that found the
/// artifact missing.  A second call for the same text after the first call's
/// artifact exists therefore never triggers a second synthesis.
pub proof fn lemma_cached_request_never_synthesizes()
    ensures
        advance_spec(RequestState::CacheCheck, RequestEvent::CacheChecked(true))
            == RequestState::CacheHit,
        forall|e: RequestEvent| #[trigger]
            advance_spec(RequestState::CacheHit, e) != RequestState::SynthesisPending,
        forall|s: RequestState, e: RequestEvent|
            #[trigger] advance_spec(s, e) == RequestState::SynthesisPending ==> (s
                == RequestState::SynthesisPending || (s == RequestState::CacheCheck && e
                == RequestEvent::CacheChecked(false))),
{
}

} // verus!
