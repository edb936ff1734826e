//! The document state cell and the handle protocol.
//!
//! A [`Wrapper`] is one document state cell: an exclusively owned engine
//! instance, a cached copy of the engine's head set as of the last successful
//! mutation recorded in the cell, and a liveness flag. A successful mutation
//! moves the engine into a fresh cell (the new handle) and freezes the old
//! one for good; a failed attempt leaves the cell untouched. A frozen cell
//! rejects every operation except reading its cached heads, cloning, and
//! disposal.

use vstd::prelude::*;

use automerge::Automerge;
use automerge::Change;
use automerge::ExpandedChange;
use automerge::Patch;

use crate::engine::all_parseable;
use crate::engine::apply_ok_of;
use crate::engine::applied_heads_of;
use crate::engine::applied_patches_of;
use crate::engine::change_desc_json_of;
use crate::engine::ingest_total;
use crate::engine::built_change_of;
use crate::engine::change_encoding_of;
use crate::engine::change_from_bytes;
use crate::engine::change_from_desc;
use crate::engine::change_raw_bytes;
use crate::engine::changes_of;
use crate::engine::desc_plain_values;
use crate::engine::doc_apply_changes;
use crate::engine::doc_clone;
use crate::engine::doc_get_changes;
use crate::engine::doc_get_heads;
use crate::engine::doc_get_missing_deps;
use crate::engine::doc_get_patch;
use crate::engine::doc_load;
use crate::engine::doc_make_patches;
use crate::engine::doc_new;
use crate::engine::doc_save;
use crate::engine::heads_of;
use crate::engine::is_change_desc_json;
use crate::engine::is_change_encoding;
use crate::engine::is_snapshot;
use crate::engine::load_admissible;
use crate::engine::loadable_of;
use crate::engine::loaded_snapshot_of;
use crate::engine::missing_deps_of;
use crate::engine::parse_change_desc;
use crate::engine::parseable_desc;
use crate::engine::parseable_record;
use crate::engine::parsed_batch;
use crate::engine::parsed_change_of;
use crate::engine::parsed_desc_of;
use crate::engine::patch_log_active;
use crate::engine::patch_log_inactive;
use crate::engine::patches_of;
use crate::engine::records_view;
use crate::engine::snapshot_of;
use crate::errors::BackendError;

verus! {

/// One document state cell.
pub struct Wrapper {
    backend: Automerge,
    heads: Vec<Vec<u8>>,
    frozen: bool,
}

impl Wrapper {
    /// Whether this cell has been superseded (or disposed of): a frozen cell
    /// rejects every operation except `get_heads`, `clone` and `free`.
    pub closed spec fn is_frozen(&self) -> bool {
        self.frozen
    }

    /// The cached head set: the engine's heads as of the most recent
    /// successful mutation recorded in this cell (empty right after `init`,
    /// `load` and `free`).
    pub closed spec fn heads_view(&self) -> Seq<Seq<u8>> {
        self.heads@.map_values(|h: Vec<u8>| h@)
    }

    /// The head set of the engine instance this cell currently owns.
    pub closed spec fn engine_heads(&self) -> Seq<Seq<u8>> {
        heads_of(self.backend)
    }

    /// The snapshot the owned engine instance would save to.
    pub closed spec fn engine_snapshot(&self) -> Seq<u8> {
        snapshot_of(self.backend)
    }

    /// The full materialized state of the owned engine instance, as patches
    /// from the empty document.
    pub closed spec fn engine_patches(&self) -> Seq<Patch> {
        patches_of(self.backend)
    }

    /// The dependencies the owned engine instance is missing.
    pub closed spec fn engine_missing_deps(&self) -> Seq<Seq<u8>> {
        missing_deps_of(self.backend)
    }

    /// The stored change records not reachable from `deps`.
    pub closed spec fn engine_changes_since(&self, deps: Seq<Seq<u8>>) -> Seq<Seq<u8>> {
        changes_of(self.backend, deps)
    }

    /// Whether the engine accepts applying this batch of parsed records.
    pub closed spec fn engine_accepts(&self, records: Seq<Seq<u8>>) -> bool {
        apply_ok_of(self.backend, parsed_batch(records))
    }

    /// The engine's head set after it accepted this batch.
    pub closed spec fn engine_heads_after(&self, records: Seq<Seq<u8>>) -> Seq<Seq<u8>> {
        applied_heads_of(self.backend, parsed_batch(records))
    }

    /// Whether the engine's apply path returns on this batch of parsed
    /// records — accepting or rejecting — rather than aborting.
    pub closed spec fn engine_ingest_total(&self, records: Seq<Seq<u8>>) -> bool {
        ingest_total(self.backend, parsed_batch(records))
    }

    /// The patches the engine logs when it accepts this batch.
    pub closed spec fn engine_patches_after(&self, records: Seq<Seq<u8>>) -> Seq<Patch> {
        applied_patches_of(self.backend, parsed_batch(records))
    }

    /// Whether the engine accepts the change built from this description.
    pub closed spec fn engine_accepts_desc(&self, desc: Seq<u8>) -> bool {
        apply_ok_of(self.backend, seq![built_change_of(parsed_desc_of(desc))])
    }

    /// The engine's head set after it accepted that change.
    pub closed spec fn engine_heads_after_desc(&self, desc: Seq<u8>) -> Seq<Seq<u8>> {
        applied_heads_of(self.backend, seq![built_change_of(parsed_desc_of(desc))])
    }

    /// Whether the engine's apply path returns on the change built from
    /// this description rather than aborting.
    pub closed spec fn engine_ingest_total_desc(&self, desc: Seq<u8>) -> bool {
        ingest_total(self.backend, seq![built_change_of(parsed_desc_of(desc))])
    }

    /// Whether a batch of records is admissible to apply against this cell:
    /// if every record parses, the engine's apply path returns on the batch.
    pub closed spec fn batch_admissible(&self, records: Seq<Seq<u8>>) -> bool {
        all_parseable(records) ==> self.engine_ingest_total(records)
    }

    /// Whether a change description is admissible to apply against this
    /// cell: if it parses, the engine's apply path returns on the change
    /// built from it.
    pub closed spec fn local_change_admissible(&self, desc: Seq<u8>) -> bool {
        parseable_desc(desc) ==> self.engine_ingest_total_desc(desc)
    }

    /// The patches the engine logs when it accepts that change.
    pub closed spec fn engine_patches_after_desc(&self, desc: Seq<u8>) -> Seq<Patch> {
        applied_patches_of(self.backend, seq![built_change_of(parsed_desc_of(desc))])
    }

    /// Construct a cell around a fresh, empty engine instance: live, with no
    /// heads and the empty-document patch set.
    pub fn init() -> (r: Wrapper)
        ensures
            !r.is_frozen(),
            r.heads_view() == Seq::<Seq<u8>>::empty(),
            r.engine_heads() == Seq::<Seq<u8>>::empty(),
            r.engine_patches() == Seq::<Patch>::empty(),
            r.engine_missing_deps() == Seq::<Seq<u8>>::empty(),
            forall|deps: Seq<Seq<u8>>|
                #[trigger] r.engine_changes_since(deps) == Seq::<Seq<u8>>::empty(),
    {
        Wrapper { backend: doc_new(), heads: Vec::new(), frozen: false }
    }

    /// Construct a cell by deserializing a full snapshot; it succeeds exactly
    /// on bytes the engine's loader accepts, and in particular on anything
    /// `save` produced. The loaded cell is live and saves to the engine's
    /// re-encoding of the input; its cached heads start empty (they are not
    /// recomputed from the loaded snapshot). Malformed bytes are a decode
    /// error. The precondition owes the caller's bytes to the loader's total
    /// domain — every snapshot is in it; only crafted bytes whose leading
    /// chunk is a lying change record are not, and on those the engine
    /// aborts rather than reports.
    pub fn load(data: &Vec<u8>) -> (r: Result<Wrapper, BackendError>)
        requires
            load_admissible(data@),
        ensures
            r is Ok <==> loadable_of(data@),
            is_snapshot(data@) ==> r is Ok,
            r matches Ok(w) ==> !w.is_frozen() && w.heads_view() == Seq::<Seq<u8>>::empty(),
            r matches Ok(w) ==> w.engine_snapshot() == loaded_snapshot_of(data@),
            r matches Ok(w) ==> forall|s: Automerge|
                data@ == #[trigger] snapshot_of(s) ==> w.engine_patches() == patches_of(s),
            r matches Err(e) ==> e is Decode,
    {
        match doc_load(data) {
            Ok(backend) => Ok(Wrapper { backend, heads: Vec::new(), frozen: false }),
            Err(m) => Err(BackendError::Decode(m)),
        }
    }

    /// The cached head set. This reads the cell's own field, never the
    /// engine, and is the one operation that succeeds on a frozen cell too.
    pub fn get_heads(&self) -> (r: Vec<Vec<u8>>)
        ensures
            r@.map_values(|h: Vec<u8>| h@) == self.heads_view(),
    {
        let mut out: Vec<Vec<u8>> = Vec::new();
        let mut i: usize = 0;
        while i < self.heads.len()
            invariant
                i <= self.heads@.len(),
                out@.len() == i,
                forall|k: int| 0 <= k < i ==> #[trigger] out@[k]@ == self.heads@[k]@,
            decreases self.heads@.len() - i,
        {
            let mut head: Vec<u8> = Vec::new();
            let mut j: usize = 0;
            while j < self.heads[i].len()
                invariant
                    i < self.heads@.len(),
                    j <= self.heads@[i as int]@.len(),
                    head@ == self.heads@[i as int]@.take(j as int),
                decreases self.heads@[i as int]@.len() - j,
            {
                head.push(self.heads[i][j]);
                j += 1;
            }
            proof {
                assert(head@ == self.heads@[i as int]@);
            }
            out.push(head);
            i += 1;
        }
        proof {
            assert(out@.map_values(|h: Vec<u8>| h@)
                =~= self.heads@.map_values(|h: Vec<u8>| h@));
        }
        out
    }

    /// The full materialized state of the document, as patches from the
    /// empty document. Fails exactly on a frozen cell.
    pub fn get_patch(&self) -> (r: Result<Vec<Patch>, BackendError>)
        ensures
            r is Ok <==> !self.is_frozen(),
            r matches Ok(v) ==> v@ == self.engine_patches(),
            r matches Err(e) ==> e is Frozen,
    {
        if self.frozen {
            return Err(BackendError::Frozen);
        }
        Ok(doc_get_patch(&self.backend))
    }

    /// The engine's stored changes that are not reachable from `have_deps`
    /// (each dependency a 32-byte version marker). Succeeds exactly on a
    /// live cell with well-sized markers; a marker of the wrong width is a
    /// decode error. Every record returned is the encoding of some
    /// structured description.
    pub fn get_changes(&self, have_deps: &Vec<Vec<u8>>) -> (r: Result<Vec<Vec<u8>>, BackendError>)
        ensures
            r is Ok <==> !self.is_frozen() && (forall|i: int|
                0 <= i < have_deps@.len() ==> #[trigger] have_deps@[i]@.len() == 32),
            self.is_frozen() ==> r == Err::<Vec<Vec<u8>>, BackendError>(BackendError::Frozen),
            (r matches Err(e) && e is Frozen) ==> self.is_frozen(),
            r matches Err(e) ==> e is Frozen || e is Decode,
            r matches Ok(v) ==> v@.map_values(|b: Vec<u8>| b@)
                == self.engine_changes_since(records_view(have_deps@)),
            r matches Ok(v) ==> forall|i: int|
                0 <= i < v@.len() ==> #[trigger] is_change_encoding(v@[i]@),
    {
        if self.frozen {
            return Err(BackendError::Frozen);
        }
        let mut i: usize = 0;
        while i < have_deps.len()
            invariant
                !self.frozen,
                i <= have_deps@.len(),
                forall|k: int| 0 <= k < i ==> #[trigger] have_deps@[k]@.len() == 32,
            decreases have_deps@.len() - i,
        {
            if have_deps[i].len() != 32 {
                return Err(BackendError::Decode(dep_width_message()));
            }
            i += 1;
        }
        Ok(doc_get_changes(&self.backend, have_deps))
    }

    /// All stored changes: the changes not reachable from the empty
    /// dependency set. Fails exactly on a frozen cell.
    pub fn get_all_changes(&self) -> (r: Result<Vec<Vec<u8>>, BackendError>)
        ensures
            r is Ok <==> !self.is_frozen(),
            r matches Ok(v) ==> v@.map_values(|b: Vec<u8>| b@)
                == self.engine_changes_since(Seq::<Seq<u8>>::empty()),
            r matches Err(e) ==> e is Frozen,
            r matches Ok(v) ==> forall|i: int|
                0 <= i < v@.len() ==> #[trigger] is_change_encoding(v@[i]@),
    {
        if self.frozen {
            return Err(BackendError::Frozen);
        }
        let deps: Vec<Vec<u8>> = Vec::new();
        let out = doc_get_changes(&self.backend, &deps);
        proof {
            assert(records_view(deps@) =~= Seq::<Seq<u8>>::empty());
        }
        Ok(out)
    }

    /// The dependencies the engine is still missing (hashes referenced by
    /// queued changes that have not arrived). Fails exactly on a frozen
    /// cell.
    pub fn get_missing_deps(&self) -> (r: Result<Vec<Vec<u8>>, BackendError>)
        ensures
            r is Ok <==> !self.is_frozen(),
            r matches Ok(v) ==> v@.map_values(|h: Vec<u8>| h@) == self.engine_missing_deps(),
            r matches Err(e) ==> e is Frozen,
    {
        if self.frozen {
            return Err(BackendError::Frozen);
        }
        Ok(doc_get_missing_deps(&self.backend))
    }

    /// Export the full snapshot of the owned engine instance. Fails exactly
    /// on a frozen cell.
    pub fn save(&self) -> (r: Result<Vec<u8>, BackendError>)
        ensures
            r is Ok <==> !self.is_frozen(),
            r matches Ok(v) ==> v@ == self.engine_snapshot(),
            r matches Err(e) ==> e is Frozen,
    {
        if self.frozen {
            return Err(BackendError::Frozen);
        }
        Ok(doc_save(&self.backend))
    }

    /// Dispose of the cell early: freeze it for good, release the heavy
    /// engine state by replacing it with a fresh empty instance, and clear
    /// the cached heads. Idempotent in effect.
    pub fn free(&mut self)
        ensures
            final(self).is_frozen(),
            final(self).heads_view() == Seq::<Seq<u8>>::empty(),
            final(self).engine_heads() == Seq::<Seq<u8>>::empty(),
            final(self).engine_patches() == Seq::<Patch>::empty(),
    {
        self.frozen = true;
        self.backend = doc_new();
        self.heads = Vec::new();
        proof {
            assert(self.heads@.map_values(|h: Vec<u8>| h@) =~= Seq::<Seq<u8>>::empty());
        }
    }

    /// Branch: an independent cell around a deep copy of the engine instance
    /// and the cached heads. Permitted on a frozen cell as well as a live
    /// one; the source cell is left exactly as it was, and no state is
    /// shared, so mutating through the copy never affects the source.
    pub fn clone(&self) -> (r: Wrapper)
        ensures
            !r.is_frozen(),
            r.heads_view() == self.heads_view(),
            r.engine_heads() == self.engine_heads(),
            r.engine_snapshot() == self.engine_snapshot(),
            r.engine_patches() == self.engine_patches(),
    {
        Wrapper {
            backend: doc_clone(&self.backend),
            heads: self.get_heads(),
            frozen: false,
        }
    }

    /// Replace the owned engine instance, leaving the liveness flag and the
    /// cached heads as they were.
    pub fn set_backend(&mut self, backend: Automerge)
        ensures
            final(self).is_frozen() == old(self).is_frozen(),
            final(self).heads_view() == old(self).heads_view(),
            final(self).engine_heads() == heads_of(backend),
            final(self).engine_snapshot() == snapshot_of(backend),
            final(self).engine_patches() == patches_of(backend),
    {
        self.backend = backend;
    }

    /// Apply a batch of binary-encoded changes.
    ///
    /// Succeeds exactly when the cell is live, every record parses, and the
    /// engine accepts the batch; then the mutated engine moves into a fresh
    /// live cell, returned together with the patches describing the observed
    /// effects, and this cell is frozen for good. A record that does not
    /// parse is a decode error; a rejection by the engine is an engine
    /// error. Any failure leaves this cell's liveness flag and cached heads
    /// unchanged (an engine rejection may still prune the engine's internal
    /// queue — the engine reports some rejections only after doing so).
    /// Once frozen, a cell never thaws, and the cached heads survive every
    /// outcome. The precondition owes, for a batch that parses, that the
    /// engine's apply path returns on it: records minted by document
    /// engines always satisfy that; crafted records that parse but lie
    /// about their dependencies or targets make the engine abort.
    pub fn apply_changes(&mut self, changes: &Vec<Vec<u8>>)
        -> (r: Result<(Wrapper, Vec<Patch>), BackendError>)
        requires
            old(self).batch_admissible(records_view(changes@)),
        ensures
            final(self).is_frozen() == (old(self).is_frozen() || r is Ok),
            final(self).heads_view() == old(self).heads_view(),
            old(self).is_frozen()
                <==> r == Err::<(Wrapper, Vec<Patch>), BackendError>(BackendError::Frozen),
            r is Err && !(r->Err_0 is Engine) ==> *final(self) == *old(self),
            r is Ok <==> !old(self).is_frozen() && all_parseable(records_view(changes@))
                && old(self).engine_accepts(records_view(changes@)),
            !old(self).is_frozen() ==> ((r is Err && r->Err_0 is Decode)
                <==> !all_parseable(records_view(changes@))),
            r matches Ok(p) ==> !p.0.is_frozen()
                && p.0.heads_view() == p.0.engine_heads()
                && p.0.heads_view() == old(self).engine_heads_after(records_view(changes@)),
            r matches Ok(p) ==> p.1@ == old(self).engine_patches_after(records_view(changes@)),
    {
        if self.frozen {
            return Err(BackendError::Frozen);
        }
        let decoded = match decode_change_batch(changes) {
            Ok(d) => d,
            Err(e) => {
                return Err(e);
            },
        };
        let mut log = patch_log_active();
        match doc_apply_changes(&mut self.backend, decoded, &mut log) {
            Err(m) => Err(BackendError::Engine(m)),
            Ok(()) => {
                let patches = doc_make_patches(&self.backend, &mut log);
                Ok((self.supersede(), patches))
            },
        }
    }

    /// Apply one locally-authored change description, given in its
    /// interchange (JSON) form.
    ///
    /// Succeeds exactly when the cell is live, the description parses, and
    /// the engine accepts the change built from it; then the mutated engine
    /// moves into a fresh live cell, returned together with the patches and
    /// the binary record of the newly minted change, and this cell is frozen
    /// for good. A description that does not parse is a decode error; a
    /// rejection by the engine is an engine error; either failure leaves
    /// this cell's liveness flag and cached heads unchanged. The
    /// precondition owes, for a description that parses, that the engine's
    /// apply path returns on the change built from it: descriptions that
    /// extend this document's history satisfy that; one that misstates its
    /// sequence number, dependencies or targets can make the engine abort.
    pub fn apply_local_change(&mut self, desc: &Vec<u8>)
        -> (r: Result<(Wrapper, Vec<Patch>, Vec<u8>), BackendError>)
        requires
            old(self).local_change_admissible(desc@),
        ensures
            final(self).is_frozen() == (old(self).is_frozen() || r is Ok),
            final(self).heads_view() == old(self).heads_view(),
            old(self).is_frozen()
                <==> r == Err::<(Wrapper, Vec<Patch>, Vec<u8>), BackendError>(
                    BackendError::Frozen),
            r is Err && !(r->Err_0 is Engine) ==> *final(self) == *old(self),
            r is Ok <==> !old(self).is_frozen() && parseable_desc(desc@)
                && old(self).engine_accepts_desc(desc@),
            !old(self).is_frozen() ==> ((r is Err && r->Err_0 is Decode)
                <==> !parseable_desc(desc@)),
            !old(self).is_frozen() && is_change_desc_json(desc@)
                ==> !(r is Err && r->Err_0 is Decode),
            r matches Ok(p) ==> p.2@ == change_encoding_of(parsed_desc_of(desc@)),
            r matches Ok(p) ==> is_change_encoding(p.2@),
            r matches Ok(p) ==> !p.0.is_frozen()
                && p.0.heads_view() == p.0.engine_heads()
                && p.0.heads_view() == old(self).engine_heads_after_desc(desc@),
            r matches Ok(p) ==> p.1@ == old(self).engine_patches_after_desc(desc@),
    {
        if self.frozen {
            return Err(BackendError::Frozen);
        }
        let parsed = match parse_change_desc(desc) {
            Ok(c) => c,
            Err(m) => {
                proof {
                    if is_change_desc_json(desc@) {
                        let c = choose|c: ExpandedChange|
                            desc@ == change_desc_json_of(c) && desc_plain_values(c);
                        assert(false);
                    }
                }
                return Err(BackendError::Decode(m));
            },
        };
        let change = change_from_desc(&parsed);
        let encoded = change_raw_bytes(&change);
        let mut batch: Vec<Change> = Vec::new();
        batch.push(change);
        proof {
            assert(batch@ =~= seq![built_change_of(parsed_desc_of(desc@))]);
        }
        let mut log = patch_log_active();
        match doc_apply_changes(&mut self.backend, batch, &mut log) {
            Err(m) => Err(BackendError::Engine(m)),
            Ok(()) => {
                let patches = doc_make_patches(&self.backend, &mut log);
                Ok((self.supersede(), patches, encoded))
            },
        }
    }

    /// Load a batch of binary-encoded changes without producing a patch
    /// (bulk import). Same protocol and precondition as `apply_changes`
    /// otherwise.
    pub fn load_changes(&mut self, changes: &Vec<Vec<u8>>)
        -> (r: Result<Wrapper, BackendError>)
        requires
            old(self).batch_admissible(records_view(changes@)),
        ensures
            final(self).is_frozen() == (old(self).is_frozen() || r is Ok),
            final(self).heads_view() == old(self).heads_view(),
            old(self).is_frozen()
                <==> r == Err::<Wrapper, BackendError>(BackendError::Frozen),
            r is Err && !(r->Err_0 is Engine) ==> *final(self) == *old(self),
            r is Ok <==> !old(self).is_frozen() && all_parseable(records_view(changes@))
                && old(self).engine_accepts(records_view(changes@)),
            !old(self).is_frozen() ==> ((r is Err && r->Err_0 is Decode)
                <==> !all_parseable(records_view(changes@))),
            r matches Ok(w) ==> !w.is_frozen()
                && w.heads_view() == w.engine_heads()
                && w.heads_view() == old(self).engine_heads_after(records_view(changes@)),
    {
        if self.frozen {
            return Err(BackendError::Frozen);
        }
        let decoded = match decode_change_batch(changes) {
            Ok(d) => d,
            Err(e) => {
                return Err(e);
            },
        };
        let mut log = patch_log_inactive();
        match doc_apply_changes(&mut self.backend, decoded, &mut log) {
            Err(m) => Err(BackendError::Engine(m)),
            Ok(()) => Ok(self.supersede()),
        }
    }

    /// Move the (just mutated) engine into a fresh live cell whose cached
    /// heads are read back from the engine, freeze this cell, and leave a
    /// fresh empty engine behind in it. The cached heads of this cell stay
    /// as they were: they still describe the state this handle was minted
    /// for.
    fn supersede(&mut self) -> (r: Wrapper)
        ensures
            final(self).is_frozen(),
            final(self).heads_view() == old(self).heads_view(),
            !r.is_frozen(),
            r.heads_view() == r.engine_heads(),
            r.engine_heads() == old(self).engine_heads(),
    {
        let mut engine = doc_new();
        std::mem::swap(&mut self.backend, &mut engine);
        self.frozen = true;
        let heads = doc_get_heads(&engine);
        Wrapper { backend: engine, heads, frozen: false }
    }
}

/// Law: what `save` returns is the snapshot of a document state whose
/// materialized patches are the cell's own, so `load` accepts it and — by
/// `load`'s contract — the reloaded cell materializes the same state. With
/// `load`'s clauses this gives the save/load round trip: for any live `w`,
/// `load(save(w))` succeeds and its `get_patch` equals `get_patch(w)`.
pub proof fn lemma_saved_snapshot_loads(w: &Wrapper)
    ensures
        is_snapshot(w.engine_snapshot()),
        exists|s: Automerge| w.engine_snapshot() == #[trigger] snapshot_of(s)
            && w.engine_patches() == patches_of(s),
{
    assert(w.engine_snapshot() == snapshot_of(w.backend));
    assert(w.engine_patches() == patches_of(w.backend));
}

/// Decode a batch of binary change records, reporting the first malformed
/// one as a decode error; it succeeds exactly when every record parses, and
/// then yields the parsed changes in order.
fn decode_change_batch(changes: &Vec<Vec<u8>>) -> (r: Result<Vec<Change>, BackendError>)
    ensures
        r is Ok <==> all_parseable(records_view(changes@)),
        r matches Ok(v) ==> v@ == parsed_batch(records_view(changes@)),
        r matches Err(e) ==> e is Decode,
{
    let mut decoded: Vec<Change> = Vec::new();
    let mut i: usize = 0;
    while i < changes.len()
        invariant
            i <= changes@.len(),
            decoded@.len() == i,
            forall|k: int| 0 <= k < i ==> #[trigger] parseable_record(changes@[k]@)
                && decoded@[k] == parsed_change_of(changes@[k]@),
        decreases changes@.len() - i,
    {
        match change_from_bytes(&changes[i]) {
            Ok(c) => decoded.push(c),
            Err(m) => {
                proof {
                    assert(records_view(changes@)[i as int] == changes@[i as int]@);
                }
                return Err(BackendError::Decode(m));
            },
        }
        i += 1;
    }
    proof {
        assert forall|k: int| 0 <= k < changes@.len()
            implies decoded@[k] == #[trigger] parsed_batch(records_view(changes@))[k] by {
            assert(records_view(changes@)[k] == changes@[k]@);
            assert(parseable_record(changes@[k]@));
        }
        assert(decoded@ =~= parsed_batch(records_view(changes@)));
    }
    Ok(decoded)
}

/// The message reported when a supplied version marker is not 32 bytes wide.
fn dep_width_message() -> String {
    "version marker must be 32 bytes".to_string()
}

} // verus!

