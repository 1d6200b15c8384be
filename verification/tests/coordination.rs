use krkr_tts::admission::AdmissionGate;
use krkr_tts::config::{ConfigCache, GeneralConfig, TextSplitMethod};
use krkr_tts::pipeline::{
    advance, plan_request, resolve_cache_dir, should_prefetch, triggers_prefetch, ProcessError,
    RequestEvent, RequestState,
};
use krkr_tts::prefetch::{prefetch_start, PrefetchStep, PrefetchWalk, SkipReason};
use krkr_tts::protocol::{RequestType, VoiceRequest};
use krkr_tts::registry::{text_item_id, ItemId, VoiceManager};

fn test_config(cache_dir: &str, text_list_path: &str) -> GeneralConfig {
    GeneralConfig {
        cache_dir: cache_dir.to_string(),
        prefetch_count: 2,
        log_file: String::new(),
        server_port: 9000,
        max_concurrent_tts: 2,
        text_list_path: text_list_path.to_string(),
    }
}

fn test_request(text: &str, cache_dir: Option<&str>) -> VoiceRequest {
    VoiceRequest {
        request_type: RequestType::GenerateVoice,
        text: text.to_string(),
        output_path: "out.wav".to_string(),
        cache_dir: cache_dir.map(|d| d.to_string()),
        config_path: "config/default.toml".to_string(),
    }
}

#[test]
fn admission_gate_blocks_at_capacity() {
    // With both permits held, a third synthesis cannot start until a release.
    let mut gate = AdmissionGate::new(2);
    assert!(gate.try_acquire());
    assert!(gate.try_acquire());
    assert!(!gate.try_acquire());
    gate.release();
    assert!(gate.try_acquire());
    assert!(!gate.try_acquire());
}

#[test]
fn admission_gate_of_zero_admits_nothing() {
    let mut gate = AdmissionGate::new(0);
    assert!(!gate.try_acquire());
}

#[test]
fn registry_marks_and_completes() {
    let mut m = VoiceManager::new();
    let id = ItemId::Line(3);
    assert!(!m.is_generating("list.txt", id));
    m.mark_in_progress("list.txt", id);
    assert!(m.is_generating("list.txt", id));
    // Idempotent insert.
    m.mark_in_progress("list.txt", id);
    assert!(m.is_generating("list.txt", id));
    m.mark_completed("list.txt", id);
    assert!(!m.is_generating("list.txt", id));
    // Idempotent remove.
    m.mark_completed("list.txt", id);
    assert!(!m.is_generating("list.txt", id));
}

#[test]
fn registry_scopes_are_independent() {
    let mut m = VoiceManager::new();
    m.mark_in_progress("a.txt", ItemId::Line(1));
    assert!(!m.is_generating("b.txt", ItemId::Line(1)));
    m.mark_in_progress("b.txt", ItemId::Line(1));
    m.mark_completed("a.txt", ItemId::Line(1));
    assert!(m.is_generating("b.txt", ItemId::Line(1)));
}

#[test]
fn line_and_text_identifiers_do_not_collide() {
    // A prefetch line number and a direct request's derived identifier are
    // kept apart by their tags even under one scope.
    let mut m = VoiceManager::new();
    m.mark_in_progress("voices", ItemId::Line(575));
    assert!(!m.is_generating("voices", ItemId::Text(575)));
}

#[test]
fn text_item_id_sums_file_name_bytes() {
    assert_eq!(text_item_id(b"ab"), ItemId::Text(195));
    assert_eq!(text_item_id(b""), ItemId::Text(0));
}

#[test]
fn text_list_memo_loads_once() {
    let mut m = VoiceManager::new();
    assert!(m.get_text_list("list.txt").is_none());
    m.store_text_list("list.txt", vec!["a".to_string(), "b".to_string()]);
    assert_eq!(m.get_text_list("list.txt").unwrap().len(), 2);
    // The first load wins; a second store does not replace the list.
    m.store_text_list("list.txt", vec!["changed".to_string()]);
    assert_eq!(m.get_text_list("list.txt").unwrap().len(), 2);
}

#[test]
fn prefetch_walk_skips_blank_and_counts_to_quota() {
    // Text list ["a", "", "b", "c"], cache empty, quota 2, current text "a":
    // the walk starts at position 1, skips the blank line, generates "b" and
    // "c", and stops with the quota reached.
    let lines: Vec<String> =
        vec!["a".to_string(), "".to_string(), "b".to_string(), "c".to_string()];
    let mut manager = VoiceManager::new();
    let scope = "story.txt";

    let start = prefetch_start(&lines, "a").unwrap();
    assert_eq!(start, 1);

    let mut walk = PrefetchWalk::new(start, 2);
    let mut synthesized: Vec<usize> = Vec::new();
    while !walk.finished(lines.len()) {
        let step = walk.step(&lines, false, &mut manager, scope);
        match step {
            PrefetchStep::Skip(reason) => {
                assert_eq!(reason, SkipReason::Blank);
            }
            PrefetchStep::Synthesize => {
                let pos = walk.pos;
                assert!(manager.is_generating(scope, ItemId::Line(pos)));
                synthesized.push(pos);
                walk.record_outcome(true, &mut manager, scope);
                assert!(!manager.is_generating(scope, ItemId::Line(pos)));
            }
        }
    }
    assert_eq!(synthesized, vec![2, 3]);
    assert_eq!(walk.generated, 2);
    assert_eq!(walk.pos, 4);
}

#[test]
fn prefetch_walk_skips_cached_and_in_flight_lines() {
    let lines: Vec<String> = vec!["x".to_string(), "y".to_string(), "z".to_string()];
    let mut manager = VoiceManager::new();
    let scope = "list.txt";
    manager.mark_in_progress(scope, ItemId::Line(1));

    let mut walk = PrefetchWalk::new(0, 5);
    // Position 0: artifact already on disk.
    assert_eq!(walk.step(&lines, true, &mut manager, scope), PrefetchStep::Skip(SkipReason::Cached));
    // Position 1: another task is generating it.
    assert_eq!(
        walk.step(&lines, false, &mut manager, scope),
        PrefetchStep::Skip(SkipReason::InFlight)
    );
    // Position 2: work to do.
    assert_eq!(walk.step(&lines, false, &mut manager, scope), PrefetchStep::Synthesize);
    walk.record_outcome(false, &mut manager, scope);
    // A failed synthesis does not count toward the quota.
    assert_eq!(walk.generated, 0);
    assert!(walk.finished(lines.len()));
}

#[test]
fn prefetch_with_zero_quota_does_nothing() {
    let lines: Vec<String> = vec!["a".to_string(), "b".to_string()];
    let walk = PrefetchWalk::new(0, 0);
    assert!(walk.finished(lines.len()));
    assert_eq!(walk.generated, 0);
}

#[test]
fn prefetch_without_matching_line_does_not_start() {
    let lines: Vec<String> = vec!["a".to_string(), "b".to_string()];
    assert_eq!(prefetch_start(&lines, "missing"), None);
    // A match on the last line starts the walk past the end: nothing to do.
    let start = prefetch_start(&lines, "b").unwrap();
    assert_eq!(start, 2);
    let walk = PrefetchWalk::new(start, 2);
    assert!(walk.finished(lines.len()));
}

#[test]
fn pipeline_reaches_synthesis_only_through_a_miss() {
    let s = RequestState::ReceivedRequest;
    let s = advance(s, RequestEvent::Dispatched);
    assert_eq!(s, RequestState::AdmissionPending);
    let s = advance(s, RequestEvent::PermitAcquired);
    assert_eq!(s, RequestState::CacheCheck);
    let miss = advance(s, RequestEvent::CacheChecked(false));
    assert_eq!(miss, RequestState::SynthesisPending);
    assert_eq!(advance(miss, RequestEvent::SynthesisFinished(true)), RequestState::Done);
    assert_eq!(
        advance(miss, RequestEvent::SynthesisFinished(false)),
        RequestState::SynthesisFailed
    );
}

#[test]
fn cached_request_never_synthesizes_again() {
    // Once the artifact exists, the same request settles as a hit: the
    // cache-check-then-generate path is idempotent.
    let hit = advance(RequestState::CacheCheck, RequestEvent::CacheChecked(true));
    assert_eq!(hit, RequestState::CacheHit);
    assert!(triggers_prefetch(hit));
    assert_ne!(
        advance(hit, RequestEvent::SynthesisFinished(true)),
        RequestState::SynthesisPending
    );
}

#[test]
fn concurrent_identical_requests_race_then_hit() {
    // Two requests for the same text arrive before either completes: both
    // pass the in-flight check and may synthesize.  After either completes,
    // a later request observes the artifact and settles as a cache hit.
    let config = test_config("voices", "");
    let first = test_request("same text", None);
    let second = test_request("same text", None);
    let plan1 = plan_request(&first, &config).unwrap();
    let plan2 = plan_request(&second, &config).unwrap();
    assert_eq!(plan1.cached_path, plan2.cached_path);
    assert_eq!(plan1.item_id, plan2.item_id);

    let mut manager = VoiceManager::new();
    let scope = plan1.cache_dir.as_str();
    let in_flight_1 = manager.is_generating(scope, plan1.item_id);
    let in_flight_2 = manager.is_generating(scope, plan2.item_id);
    assert!(!in_flight_1 && !in_flight_2);
    manager.mark_in_progress(scope, plan1.item_id);
    manager.mark_in_progress(scope, plan2.item_id);
    manager.mark_completed(scope, plan1.item_id);
    assert!(!manager.is_generating(scope, plan2.item_id));

    // The first completion put the artifact in the cache.
    let later = advance(RequestState::CacheCheck, RequestEvent::CacheChecked(true));
    assert_eq!(later, RequestState::CacheHit);
}

#[test]
fn cache_dir_resolution_prefers_the_request() {
    let r = resolve_cache_dir(&Some("mine".to_string()), "conf");
    assert_eq!(r.unwrap(), "mine");
    let r = resolve_cache_dir(&None, "conf");
    assert_eq!(r.unwrap(), "conf");
    let r = resolve_cache_dir(&None, "");
    assert_eq!(r.unwrap_err(), ProcessError::NoCacheDirectory);
}

#[test]
fn request_without_any_cache_dir_is_refused() {
    let config = test_config("", "");
    let request = test_request("words", None);
    assert_eq!(plan_request(&request, &config).unwrap_err(), ProcessError::NoCacheDirectory);
}

#[test]
fn plan_names_the_artifact_from_the_text() {
    let config = test_config("voices", "list.txt");
    let request = test_request("a", None);
    let plan = plan_request(&request, &config).unwrap();
    assert_eq!(plan.voice_filename, "0cc175b9c0f1b6a831c399e269772661.wav");
    assert_eq!(plan.cached_path, "voices/0cc175b9c0f1b6a831c399e269772661.wav");
}

#[test]
fn prefetch_trigger_needs_a_configured_existing_list() {
    assert!(should_prefetch("list.txt", true));
    assert!(!should_prefetch("list.txt", false));
    assert!(!should_prefetch("", true));
}

#[test]
fn config_memo_keeps_the_first_load() {
    let mut cache = ConfigCache::new();
    assert!(cache.get("config/default.toml").is_none());
    cache.insert("config/default.toml", test_config("voices", "list.txt"));
    assert_eq!(cache.get("config/default.toml").unwrap().cache_dir, "voices");
    cache.insert("config/default.toml", test_config("other", ""));
    assert_eq!(cache.get("config/default.toml").unwrap().cache_dir, "voices");
    assert!(cache.get("elsewhere.toml").is_none());
}

#[test]
fn split_method_round_trips_through_api_values() {
    let methods = [
        TextSplitMethod::NoSplit,
        TextSplitMethod::FourSentences,
        TextSplitMethod::FiftyChars,
        TextSplitMethod::ChinesePeriod,
        TextSplitMethod::EnglishPeriod,
        TextSplitMethod::AllPunctuation,
    ];
    for m in methods {
        assert_eq!(TextSplitMethod::from_api_value(m.to_api_value()), Some(m));
    }
    assert_eq!(TextSplitMethod::from_api_value("no_split"), Some(TextSplitMethod::NoSplit));
    assert_eq!(TextSplitMethod::from_api_value("cut9"), None);
    assert_eq!(TextSplitMethod::NoSplit.description(), "不切分文本");
    assert_eq!(TextSplitMethod::NoSplit.to_api_value(), "cut0");
}
