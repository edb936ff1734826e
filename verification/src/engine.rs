//! The boundary with the document engine.
//!
//! The CRDT merge algorithm, patch computation and binary change encoding are
//! the engine's business; this module declares the engine's types and gives
//! each engine entry point that the handle layer calls a thin wrapper with the
//! contract that the engine's own source shows. Everything above this module
//! is verified against those contracts.
//!
//! Every engine operation used here is a function of the document value and
//! the arguments alone — no clock, randomness or environment reaches a
//! result — so each result carries a name (an uninterpreted spec function)
//! that the wrappers' contracts share.

use vstd::prelude::*;

use automerge::Automerge;
use automerge::Change;
use automerge::ExpandedChange;
use automerge::Patch;
use automerge::PatchLog;
use automerge::ChangeHash;
use automerge::ReadDoc;
use std::convert::TryInto;

verus! {

#[verifier::external_type_specification]
#[verifier::external_body]
pub struct ExAutomerge(Automerge);

#[verifier::external_type_specification]
#[verifier::external_body]
pub struct ExChange(Change);

#[verifier::external_type_specification]
#[verifier::external_body]
pub struct ExExpandedChange(ExpandedChange);

#[verifier::external_type_specification]
#[verifier::external_body]
pub struct ExPatch(Patch);

#[verifier::external_type_specification]
#[verifier::external_body]
pub struct ExPatchLog(PatchLog);

/// The engine's current head set, as the byte form of each version marker,
/// in the order `Automerge::get_heads` hands them out (sorted).
pub uninterp spec fn heads_of(d: Automerge) -> Seq<Seq<u8>>;

/// The full snapshot encoding of a document, as `Automerge::save` produces it.
pub uninterp spec fn snapshot_of(d: Automerge) -> Seq<u8>;

/// Whether `Automerge::load` accepts `b`.
pub uninterp spec fn loadable_of(b: Seq<u8>) -> bool;

/// Whether `Automerge::load` returns at all on `b` — accepting or rejecting —
/// rather than aborting. When the leading chunk of `b` is a change record,
/// the loader applies it, and the apply path aborts on records that parse
/// but misstate their dependencies; every snapshot `Automerge::save`
/// produced is in this set.
pub uninterp spec fn load_total(b: Seq<u8>) -> bool;

/// The snapshot that saving the document loaded from `b` produces (the
/// engine may re-encode, so this need not be `b` itself).
pub uninterp spec fn loaded_snapshot_of(b: Seq<u8>) -> Seq<u8>;

/// The full materialized state of a document as patches from the empty
/// document, as diffing from the empty head set produces it.
pub uninterp spec fn patches_of(d: Automerge) -> Seq<Patch>;

/// The dependencies the engine is missing (hashes referenced by queued
/// changes that have not arrived), in the order the engine reports them.
pub uninterp spec fn missing_deps_of(d: Automerge) -> Seq<Seq<u8>>;

/// The stored change records not reachable from the dependency set `deps`,
/// in the order the engine hands them out.
pub uninterp spec fn changes_of(d: Automerge, deps: Seq<Seq<u8>>) -> Seq<Seq<u8>>;

/// The raw binary record held by an engine change value
/// (`Change::raw_bytes`).
pub uninterp spec fn change_bytes_of(c: Change) -> Seq<u8>;

/// Whether `Change::from_bytes` accepts `b`.
pub uninterp spec fn parseable_record(b: Seq<u8>) -> bool;

/// The change value `Change::from_bytes` yields on bytes it accepts.
pub uninterp spec fn parsed_change_of(b: Seq<u8>) -> Change;

/// The binary encoding of a structured change description, as building an
/// engine change from it produces (`Change::from` followed by
/// `Change::raw_bytes`).
pub uninterp spec fn change_encoding_of(c: ExpandedChange) -> Seq<u8>;

/// The change value that building a record from a description yields
/// (`Change::from::<ExpandedChange>`).
pub uninterp spec fn built_change_of(c: ExpandedChange) -> Change;

/// The description that expanding a binary change record yields
/// (`Change::decode` on the record parsed from those bytes).
pub uninterp spec fn decoded_desc_of(b: Seq<u8>) -> ExpandedChange;

/// The canonical interchange (JSON) encoding of a structured change
/// description, as `serde_json::to_vec` produces it.
pub uninterp spec fn change_desc_json_of(c: ExpandedChange) -> Seq<u8>;

/// Whether the interchange (JSON) form represents a description exactly, so
/// that parsing its canonical encoding yields the description back.
/// Byte-array and unknown operation values serialize untagged and do not
/// read back; non-finite numbers and counters away from their initial value
/// are normalized by the encoding; descriptions carrying those lie outside.
pub uninterp spec fn desc_plain_values(c: ExpandedChange) -> bool;

/// Whether `serde_json::from_slice` parses `b` as a change description.
pub uninterp spec fn parseable_desc(b: Seq<u8>) -> bool;

/// The description parsed from interchange bytes the parser accepts.
pub uninterp spec fn parsed_desc_of(b: Seq<u8>) -> ExpandedChange;

/// Whether the engine accepts applying `batch` to `d` (as opposed to
/// reporting a rejection such as a duplicate sequence number). Queuing a
/// change whose dependencies are missing counts as acceptance.
pub uninterp spec fn apply_ok_of(d: Automerge, batch: Seq<Change>) -> bool;

/// Whether the engine's apply path returns at all on `d` and `batch` —
/// accepting or rejecting — rather than aborting. It aborts on changes that
/// parse but lie: one whose dependencies are satisfied while an actor it
/// references is unknown to the document, or whose operation targets an
/// object the document does not have. Every batch of records minted by
/// document engines from coherent histories is in this set.
pub uninterp spec fn ingest_total(d: Automerge, batch: Seq<Change>) -> bool;

/// The head set of `d` after the engine accepted applying `batch` to it.
pub uninterp spec fn applied_heads_of(d: Automerge, batch: Seq<Change>) -> Seq<Seq<u8>>;

/// The patches describing the observed effect of applying `batch` to `d`,
/// as an active patch log collects them.
pub uninterp spec fn applied_patches_of(d: Automerge, batch: Seq<Change>) -> Seq<Patch>;

/// Whether a patch log is freshly constructed and recording.
pub uninterp spec fn patch_log_fresh(l: PatchLog) -> bool;

/// The patches `Automerge::make_patches` renders from a log against a
/// document.
pub uninterp spec fn log_patches_of(l: PatchLog, d: Automerge) -> Seq<Patch>;

/// Whether `b` is the binary encoding of some structured change description.
pub open spec fn is_change_encoding(b: Seq<u8>) -> bool {
    exists|c: ExpandedChange| b == change_encoding_of(c)
}

/// Whether `b` is the canonical interchange form of some plain-valued
/// structured change description.
pub open spec fn is_change_desc_json(b: Seq<u8>) -> bool {
    exists|c: ExpandedChange| b == change_desc_json_of(c) && desc_plain_values(c)
}

/// Whether `b` is the snapshot of some document state.
pub open spec fn is_snapshot(b: Seq<u8>) -> bool {
    exists|d: Automerge| b == snapshot_of(d)
}

/// Whether bytes are admissible to the loader: every snapshot is, and so is
/// anything else on which the loader returns rather than aborts.
pub open spec fn load_admissible(b: Seq<u8>) -> bool {
    is_snapshot(b) || load_total(b)
}

/// Whether bytes are admissible to the change decoder: if they parse as a
/// change record, they are an encoding the engine's own encoder produced
/// (the decoder aborts on records that parse but were not).
pub open spec fn decode_admissible(b: Seq<u8>) -> bool {
    parseable_record(b) ==> is_change_encoding(b)
}

/// The byte view of each record in a batch.
pub open spec fn records_view(v: Seq<Vec<u8>>) -> Seq<Seq<u8>> {
    v.map_values(|b: Vec<u8>| b@)
}

/// Whether every record in the batch parses as a binary change.
pub open spec fn all_parseable(s: Seq<Seq<u8>>) -> bool {
    forall|i: int| 0 <= i < s.len() ==> #[trigger] parseable_record(s[i])
}

/// The change values a batch of records parses to.
pub open spec fn parsed_batch(s: Seq<Seq<u8>>) -> Seq<Change> {
    s.map_values(|b: Seq<u8>| parsed_change_of(b))
}

/// Relies on `Automerge::new`: a fresh document has no changes, so its head
/// set, stored changes (from any dependency set), missing dependencies and
/// materialized state are all empty.
#[verifier::external_body]
pub(crate) fn doc_new() -> (r: Automerge)
    ensures
        heads_of(r) == Seq::<Seq<u8>>::empty(),
        patches_of(r) == Seq::<Patch>::empty(),
        missing_deps_of(r) == Seq::<Seq<u8>>::empty(),
        forall|deps: Seq<Seq<u8>>| #[trigger] changes_of(r, deps) == Seq::<Seq<u8>>::empty(),
{
    Automerge::new()
}

/// Relies on `Automerge::load`: document chunks are parsed with
/// bounds-checked actor references and rejected through the engine's error
/// type, and anything `Automerge::save` produced loads. Loading a saved
/// document reproduces its materialized state (the engine may re-encode the
/// snapshot itself, so only the state round-trips, not the bytes). When the
/// leading chunk is instead a bare change record the loader applies it, and
/// that path can abort on crafted records (see `ingest_total`), so such
/// inputs are left out by the precondition.
#[verifier::external_body]
pub(crate) fn doc_load(data: &Vec<u8>) -> (r: Result<Automerge, String>)
    requires
        is_snapshot(data@) || load_total(data@),
    ensures
        r is Ok <==> loadable_of(data@),
        is_snapshot(data@) ==> r is Ok,
        r is Err ==> load_total(data@),
        r matches Ok(d) ==> snapshot_of(d) == loaded_snapshot_of(data@),
        r matches Ok(d) ==> forall|s: Automerge|
            data@ == #[trigger] snapshot_of(s) ==> patches_of(d) == patches_of(s),
{
    match Automerge::load(data.as_slice()) {
        Ok(doc) => Ok(doc),
        Err(e) => Err(format!("{}", e)),
    }
}

/// Relies on `Automerge::save`: the snapshot is a function of the document
/// state alone; nothing randomized reaches the output. (It asserts the
/// engine's actor-table invariant, which the engine restores after every
/// apply and load, so the assertion cannot fire on documents this library
/// holds.)
#[verifier::external_body]
pub(crate) fn doc_save(d: &Automerge) -> (r: Vec<u8>)
    ensures
        r@ == snapshot_of(*d),
{
    d.save()
}

/// Relies on the derived `Clone` of `Automerge`: the copy carries the same
/// document state, so every state-derived result is the same.
#[verifier::external_body]
pub(crate) fn doc_clone(d: &Automerge) -> (r: Automerge)
    ensures
        heads_of(r) == heads_of(*d),
        snapshot_of(r) == snapshot_of(*d),
        patches_of(r) == patches_of(*d),
{
    d.clone()
}

/// Relies on `Automerge::get_heads`: it returns the hash of each head, a
/// 32-byte value.
#[verifier::external_body]
pub(crate) fn doc_get_heads(d: &Automerge) -> (r: Vec<Vec<u8>>)
    ensures
        r@.map_values(|h: Vec<u8>| h@) == heads_of(*d),
        forall|i: int| 0 <= i < r@.len() ==> #[trigger] r@[i]@.len() == 32,
{
    d.get_heads().iter().map(|h| h.0.to_vec()).collect()
}

/// Relies on `Automerge::diff` and `Automerge::get_heads`: diffing from the
/// empty head set to the current one materializes the whole document state
/// as patches, and neither call fails.
#[verifier::external_body]
pub(crate) fn doc_get_patch(d: &Automerge) -> (r: Vec<Patch>)
    ensures
        r@ == patches_of(*d),
{
    d.diff(&[], &d.get_heads())
}

/// Relies on `PatchLog::active`: a fresh, recording log.
#[verifier::external_body]
pub(crate) fn patch_log_active() -> (r: PatchLog)
    ensures
        patch_log_fresh(r),
{
    PatchLog::active()
}

/// Relies on `PatchLog::inactive`.
#[verifier::external_body]
pub(crate) fn patch_log_inactive() -> (r: PatchLog)
{
    PatchLog::inactive()
}

/// Relies on `Automerge::apply_changes_log_patches`: it applies (or queues)
/// the changes, logging their observable effect, and reports a rejection
/// (a duplicate sequence number or author) as an error; acceptance, the
/// resulting head set and the logged patches are functions of the document
/// and the batch.
///
/// The engine assumes records minted by document engines from coherent
/// histories: on a record that parses but lies (see `ingest_total`) it
/// aborts instead of erroring, and its public interface offers no way to
/// test for that, so the precondition leaves such inputs out.
#[verifier::external_body]
pub(crate) fn doc_apply_changes(
    d: &mut Automerge,
    changes: Vec<Change>,
    log: &mut PatchLog,
) -> (r: Result<(), String>)
    requires
        ingest_total(*old(d), changes@),
    ensures
        r is Ok <==> apply_ok_of(*old(d), changes@),
        r is Err ==> ingest_total(*old(d), changes@),
        r is Ok ==> heads_of(*final(d)) == applied_heads_of(*old(d), changes@),
        r is Ok && patch_log_fresh(*old(log)) ==> log_patches_of(*final(log), *final(d))
            == applied_patches_of(*old(d), changes@),
{
    match d.apply_changes_log_patches(changes, log) {
        Ok(()) => Ok(()),
        Err(e) => Err(format!("{}", e)),
    }
}

/// Relies on `Automerge::make_patches`: it renders the logged effects into
/// patches — a function of the log and the document — and does not fail.
#[verifier::external_body]
pub(crate) fn doc_make_patches(d: &Automerge, log: &mut PatchLog) -> (r: Vec<Patch>)
    ensures
        r@ == log_patches_of(*old(log), *d),
{
    d.make_patches(log)
}

/// Relies on `Automerge::get_changes` and `Change::raw_bytes`: the engine
/// hands out its stored changes (those not reachable from `have_deps`), each
/// rebuilt by its own canonical builder, so each record is the encoding of
/// some structured description. `ChangeHash::try_from` accepts exactly
/// 32-byte slices, which the precondition guarantees.
#[verifier::external_body]
pub(crate) fn doc_get_changes(d: &Automerge, have_deps: &Vec<Vec<u8>>) -> (r: Vec<Vec<u8>>)
    requires
        forall|i: int| 0 <= i < have_deps@.len() ==> #[trigger] have_deps@[i]@.len() == 32,
    ensures
        r@.map_values(|b: Vec<u8>| b@) == changes_of(*d, records_view(have_deps@)),
        forall|i: int| 0 <= i < r@.len()
            ==> #[trigger] is_change_encoding(r@[i]@),
{
    let deps: Vec<ChangeHash> =
        have_deps.iter().map(|h| h.as_slice().try_into().unwrap()).collect();
    d.get_changes(&deps).iter().map(|c| c.raw_bytes().to_vec()).collect()
}

/// Relies on `Automerge::get_missing_deps` (with no extra heads): it returns
/// the 32-byte hashes of the dependencies the engine is still missing.
#[verifier::external_body]
pub(crate) fn doc_get_missing_deps(d: &Automerge) -> (r: Vec<Vec<u8>>)
    ensures
        r@.map_values(|h: Vec<u8>| h@) == missing_deps_of(*d),
        forall|i: int| 0 <= i < r@.len() ==> #[trigger] r@[i]@.len() == 32,
{
    d.get_missing_deps(&[]).iter().map(|h| h.0.to_vec()).collect()
}

/// Relies on `Change::from_bytes`: a deterministic parser that fails only on
/// malformed bytes. It accepts any record the engine's encoder produced,
/// and such a record keeps the raw bytes it was parsed from (a
/// deflate-compressed record is also accepted, but is decompressed, so only
/// encoder-image inputs keep their bytes).
#[verifier::external_body]
pub(crate) fn change_from_bytes(b: &Vec<u8>) -> (r: Result<Change, String>)
    ensures
        r is Ok <==> parseable_record(b@),
        r matches Ok(c) ==> c == parsed_change_of(b@),
        is_change_encoding(b@) ==> r is Ok && change_bytes_of(r->Ok_0) == b@,
{
    match Change::from_bytes(b.clone()) {
        Ok(ch) => Ok(ch),
        Err(e) => Err(format!("{}", e)),
    }
}

/// Relies on `Change::from::<ExpandedChange>`: building the binary change
/// record from a structured description is deterministic. (Its one internal
/// panic is unreachable, as its source notes: predecessor lists are kept
/// sorted by construction.)
#[verifier::external_body]
pub(crate) fn change_from_desc(c: &ExpandedChange) -> (r: Change)
    ensures
        r == built_change_of(*c),
        change_bytes_of(r) == change_encoding_of(*c),
{
    Change::from(c.clone())
}

/// Relies on `Change::raw_bytes`: the uncompressed record held by the change.
#[verifier::external_body]
pub(crate) fn change_raw_bytes(c: &Change) -> (r: Vec<u8>)
    ensures
        r@ == change_bytes_of(*c),
{
    c.raw_bytes().to_vec()
}

/// Relies on `Change::decode`: expanding a change recovers every field the
/// encoder stores, so on a record the encoder produced, re-encoding the
/// expansion gives the record back. The decoder indexes the record's actor
/// table without bounds checks and can abort on records that parse but were
/// not produced by the encoder, so only such records are admitted.
#[verifier::external_body]
pub(crate) fn change_decode(c: &Change) -> (r: ExpandedChange)
    requires
        is_change_encoding(change_bytes_of(*c)),
    ensures
        r == decoded_desc_of(change_bytes_of(*c)),
        change_encoding_of(r) == change_bytes_of(*c),
{
    c.decode()
}

/// Relies on `serde_json::from_slice`: a deterministic parser; it reads back
/// anything `serde_json::to_vec` produced from a description the
/// interchange form represents exactly, yielding that very description
/// (byte-array and unknown values serialize untagged and do not parse
/// back).
#[verifier::external_body]
pub(crate) fn parse_change_desc(b: &Vec<u8>) -> (r: Result<ExpandedChange, String>)
    ensures
        r is Ok <==> parseable_desc(b@),
        r matches Ok(c) ==> c == parsed_desc_of(b@),
        forall|c: ExpandedChange|
            b@ == change_desc_json_of(c) && #[trigger] desc_plain_values(c)
                ==> r is Ok && r->Ok_0 == c,
{
    match serde_json::from_slice::<ExpandedChange>(b.as_slice()) {
        Ok(c) => Ok(c),
        Err(e) => Err(format!("{}", e)),
    }
}

/// Relies on `serde_json::to_vec`: it fails only when a `Serialize`
/// implementation fails or on a map with non-string keys, and the expanded
/// change form has neither (non-finite floats serialize as null), so
/// serializing it cannot fail.
#[verifier::external_body]
pub(crate) fn change_desc_json(c: &ExpandedChange) -> (r: Vec<u8>)
    ensures
        r@ == change_desc_json_of(*c),
{
    serde_json::to_vec(c).unwrap()
}

} // verus!
