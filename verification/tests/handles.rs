//! Scenario tests for the handle protocol, run against the real engine.

use automerge_handles::decode_change;
use automerge_handles::encode_change;
use automerge_handles::BackendError;
use automerge_handles::Wrapper;

const ACTOR_A: &str = "0123456789abcdef0123456789abcdef";
const ACTOR_B: &str = "fedcba9876543210fedcba9876543210";

fn hex(bytes: &[u8]) -> String {
    bytes.iter().map(|b| format!("{:02x}", b)).collect::<Vec<String>>().join("")
}

/// The interchange form of a one-operation change description: set `key` to
/// `value` at the document root.
fn desc(actor: &str, seq: u64, start_op: u64, deps: &[String], key: &str, value: &str) -> Vec<u8> {
    let deps_json: Vec<String> = deps.iter().map(|d| format!("\"{}\"", d)).collect();
    let ops = format!(
        "[{{\"action\":\"set\",\"obj\":\"_root\",\"key\":\"{}\",\"value\":\"{}\",\"pred\":[]}}]",
        key, value
    );
    format!(
        "{{\"ops\":{},\"actor\":\"{}\",\"seq\":{},\"startOp\":{},\"time\":0,\"message\":null,\"deps\":[{}]}}",
        ops, actor, seq, start_op, deps_json.join(",")
    )
    .into_bytes()
}

#[test]
fn init_starts_live_and_empty() {
    let h = Wrapper::init();
    assert!(h.get_heads().is_empty());
    let patches = h.get_patch().unwrap();
    assert!(patches.is_empty());
    assert!(h.get_all_changes().unwrap().is_empty());
    assert!(h.get_missing_deps().unwrap().is_empty());
    assert!(h.save().is_ok());
}

#[test]
fn local_change_mints_new_handle_and_freezes_old() {
    let mut h0 = Wrapper::init();
    let (h1, patches, change_bytes) =
        h0.apply_local_change(&desc(ACTOR_A, 1, 1, &[], "title", "hello")).unwrap();
    assert!(!patches.is_empty());
    assert!(!change_bytes.is_empty());

    // The old handle fails everything except get_heads with Frozen.
    assert!(matches!(h0.get_patch(), Err(BackendError::Frozen)));
    assert!(matches!(h0.save(), Err(BackendError::Frozen)));
    assert!(matches!(h0.get_all_changes(), Err(BackendError::Frozen)));
    assert!(matches!(h0.get_missing_deps(), Err(BackendError::Frozen)));
    assert!(matches!(h0.apply_changes(&vec![]), Err(BackendError::Frozen)));
    assert!(matches!(h0.load_changes(&vec![]), Err(BackendError::Frozen)));
    assert!(matches!(
        h0.apply_local_change(&desc(ACTOR_A, 2, 2, &[], "k", "v")),
        Err(BackendError::Frozen)
    ));
    // Its cached heads are still the ones it was minted with.
    assert!(h0.get_heads().is_empty());

    // The new handle works, and carries the fresh head.
    let heads = h1.get_heads();
    assert_eq!(heads.len(), 1);
    assert_eq!(heads[0].len(), 32);
    assert!(h1.get_patch().is_ok());
}

#[test]
fn load_changes_scenario() {
    // Author two chained changes on a scratch branch.
    let mut scratch = Wrapper::init();
    let (mut s1, _, c1) =
        scratch.apply_local_change(&desc(ACTOR_A, 1, 1, &[], "a", "1")).unwrap();
    let head1 = hex(&s1.get_heads()[0]);
    let (_s2, _, c2) =
        s1.apply_local_change(&desc(ACTOR_A, 2, 2, &[head1], "b", "2")).unwrap();

    // h0 takes c1 by bulk load; the old handle keeps the empty head set.
    let mut h0 = Wrapper::init();
    let mut h1 = h0.load_changes(&vec![c1]).unwrap();
    assert!(h0.get_heads().is_empty());
    assert!(matches!(h0.apply_changes(&vec![c2.clone()]), Err(BackendError::Frozen)));

    // The successor applies c2 fine and moves to a third handle.
    let minted_heads = h1.get_heads();
    assert_eq!(minted_heads.len(), 1);
    let (h2, patches) = h1.apply_changes(&vec![c2]).unwrap();
    assert!(!patches.is_empty());
    assert_eq!(h2.get_heads().len(), 1);
    // The superseded handle still reports the heads it was minted with.
    assert_eq!(h1.get_heads(), minted_heads);
    assert_ne!(h2.get_heads(), minted_heads);
}

#[test]
fn empty_batch_still_supersedes_the_handle() {
    let mut h0 = Wrapper::init();
    let (h1, patches) = h0.apply_changes(&vec![]).unwrap();
    assert!(patches.is_empty());
    assert!(matches!(h0.get_patch(), Err(BackendError::Frozen)));
    assert!(h1.get_heads().is_empty());
    assert!(h1.get_patch().unwrap().is_empty());
}

#[test]
fn save_is_a_function_of_the_state() {
    let mut h0 = Wrapper::init();
    let (h1, _, _) = h0.apply_local_change(&desc(ACTOR_A, 1, 1, &[], "a", "1")).unwrap();
    assert_eq!(h1.save().unwrap(), h1.save().unwrap());
    assert_eq!(h1.clone().save().unwrap(), h1.save().unwrap());
}

#[test]
fn malformed_description_is_a_decode_error() {
    let mut h0 = Wrapper::init();
    let r = h0.apply_local_change(&b"not a change description".to_vec());
    assert!(matches!(r, Err(BackendError::Decode(_))));
    // The handle is untouched: still live, still the empty-document patch.
    let patches = h0.get_patch().unwrap();
    assert!(patches.is_empty());
    assert!(h0.get_heads().is_empty());
}

#[test]
fn malformed_change_bytes_are_a_decode_error() {
    let mut h0 = Wrapper::init();
    let r = h0.apply_changes(&vec![vec![0u8, 1, 2, 3]]);
    assert!(matches!(r, Err(BackendError::Decode(_))));
    assert!(h0.get_patch().is_ok());
    assert!(h0.get_heads().is_empty());
}

#[test]
fn engine_rejection_preserves_the_handle() {
    let mut scratch = Wrapper::init();
    let (_, _, c1) = scratch.apply_local_change(&desc(ACTOR_A, 1, 1, &[], "a", "1")).unwrap();
    // Same actor and sequence number, different content: a duplicate the
    // engine rejects.
    let mut scratch2 = Wrapper::init();
    let (_, _, c1b) = scratch2.apply_local_change(&desc(ACTOR_A, 1, 1, &[], "x", "9")).unwrap();

    let mut h0 = Wrapper::init();
    let mut h1 = h0.load_changes(&vec![c1]).unwrap();
    let heads_before = h1.get_heads();
    let r = h1.apply_changes(&vec![c1b]);
    assert!(matches!(r, Err(BackendError::Engine(_))));
    // The failed attempt froze nothing and left the cached heads alone.
    assert_eq!(h1.get_heads(), heads_before);
    assert!(h1.get_patch().is_ok());
}

#[test]
fn queued_change_reports_missing_deps() {
    let mut scratch = Wrapper::init();
    let (mut s1, _, _c1) =
        scratch.apply_local_change(&desc(ACTOR_A, 1, 1, &[], "a", "1")).unwrap();
    let head1 = hex(&s1.get_heads()[0]);
    let (_s2, _, c2) =
        s1.apply_local_change(&desc(ACTOR_A, 2, 2, &[head1], "b", "2")).unwrap();

    // c2 arrives without its dependency: the engine queues it and reports
    // the missing hash.
    let mut h0 = Wrapper::init();
    let h1 = h0.load_changes(&vec![c2]).unwrap();
    let missing = h1.get_missing_deps().unwrap();
    assert_eq!(missing.len(), 1);
    assert_eq!(missing[0].len(), 32);
}

#[test]
fn clone_is_an_independent_branch() {
    let mut h0 = Wrapper::init();
    let (h1, _, _) = h0.apply_local_change(&desc(ACTOR_A, 1, 1, &[], "a", "1")).unwrap();

    let mut branch = h1.clone();
    assert_eq!(branch.get_heads(), h1.get_heads());
    let patch_before = h1.get_patch().unwrap();

    // Mutating through the branch leaves the source exactly as it was.
    let (b1, _, _) = branch.apply_local_change(&desc(ACTOR_B, 1, 2, &[], "c", "3")).unwrap();
    assert!(h1.get_patch().is_ok());
    assert_eq!(h1.get_patch().unwrap(), patch_before);
    assert_ne!(b1.get_heads(), h1.get_heads());

    // Cloning is permitted on a frozen cell too, and the copy is live.
    let frozen_clone = h0.clone();
    assert!(frozen_clone.get_patch().is_ok());
}

#[test]
fn free_is_terminal_and_idempotent() {
    let mut h = Wrapper::init();
    h.free();
    assert!(matches!(h.get_patch(), Err(BackendError::Frozen)));
    assert!(h.get_patch().unwrap_err().is_frozen_error());
    assert!(matches!(h.save(), Err(BackendError::Frozen)));
    assert!(h.get_heads().is_empty());
    h.free();
    assert!(matches!(h.get_patch(), Err(BackendError::Frozen)));
    // The copy made from a disposed cell is live and empty.
    let fresh = h.clone();
    assert!(fresh.get_patch().unwrap().is_empty());
}

#[test]
fn get_changes_validates_marker_width() {
    let mut h0 = Wrapper::init();
    let (h1, _, _) = h0.apply_local_change(&desc(ACTOR_A, 1, 1, &[], "a", "1")).unwrap();
    let r = h1.get_changes(&vec![vec![1u8, 2, 3]]);
    assert!(matches!(r, Err(BackendError::Decode(_))));
    // With its own heads as dependencies there is nothing newer to hand out.
    let newer = h1.get_changes(&h1.get_heads()).unwrap();
    assert!(newer.is_empty());
    // From the empty dependency set, the one change comes back.
    let all = h1.get_all_changes().unwrap();
    assert_eq!(all.len(), 1);
}

#[test]
fn save_load_round_trip_preserves_the_patch() {
    let mut h0 = Wrapper::init();
    let (mut h1, _, _) = h0.apply_local_change(&desc(ACTOR_A, 1, 1, &[], "a", "1")).unwrap();
    let head1 = hex(&h1.get_heads()[0]);
    let (h2, _, _) = h1.apply_local_change(&desc(ACTOR_A, 2, 2, &[head1], "b", "2")).unwrap();

    let snapshot = h2.save().unwrap();
    let reloaded = Wrapper::load(&snapshot).unwrap();
    // The reloaded cell starts with an empty cached head set by design.
    assert!(reloaded.get_heads().is_empty());
    // But the materialized state is the same document.
    assert_eq!(reloaded.get_patch().unwrap(), h2.get_patch().unwrap());
}

#[test]
fn load_rejects_malformed_snapshots() {
    let r = Wrapper::load(&vec![1u8, 2, 3, 4]);
    assert!(matches!(r, Err(BackendError::Decode(_))));
}

#[test]
fn change_codec_round_trip() {
    // A record minted by the engine decodes, and re-encoding the decoded
    // description reproduces the record bit for bit.
    let mut h0 = Wrapper::init();
    let (_, _, record) = h0.apply_local_change(&desc(ACTOR_A, 1, 1, &[], "a", "1")).unwrap();
    let decoded = decode_change(&record).unwrap();
    let reencoded = encode_change(&decoded).unwrap();
    assert_eq!(reencoded, record);
    assert_eq!(decode_change(&reencoded).unwrap(), decoded);
}

#[test]
fn change_codec_round_trip_from_interchange_form() {
    // Encoding a handwritten description and decoding it back gives the
    // same description; the engine only adds the computed hash.
    let input = desc(ACTOR_A, 1, 1, &[], "title", "hello");
    let record = encode_change(&input).unwrap();
    let output = decode_change(&record).unwrap();

    let input_value: serde_json::Value = serde_json::from_slice(&input).unwrap();
    let mut output_value: serde_json::Value = serde_json::from_slice(&output).unwrap();
    let hash = output_value.as_object_mut().unwrap().remove("hash");
    assert!(hash.is_some());
    assert_eq!(output_value, input_value);
}

#[test]
fn change_codec_rejects_malformed_input() {
    assert!(matches!(
        encode_change(&b"{}".to_vec()),
        Err(BackendError::Decode(_))
    ));
    assert!(matches!(
        decode_change(&vec![9u8, 9, 9]),
        Err(BackendError::Decode(_))
    ));
}

#[test]
fn set_backend_replaces_the_engine_only() {
    let mut h0 = Wrapper::init();
    let (mut h1, _, _) = h0.apply_local_change(&desc(ACTOR_A, 1, 1, &[], "a", "1")).unwrap();
    let cached = h1.get_heads();
    h1.set_backend(automerge::Automerge::new());
    // Still live, cached heads untouched, but the engine is now empty.
    assert_eq!(h1.get_heads(), cached);
    assert!(h1.get_patch().unwrap().is_empty());
}
