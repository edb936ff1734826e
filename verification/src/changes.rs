//! The change codec: between the interchange form of a structured change
//! description and the engine's binary change record.

use vstd::prelude::*;

use automerge::ExpandedChange;

use crate::engine::change_decode;
use crate::engine::change_desc_json;
use crate::engine::change_desc_json_of;
use crate::engine::change_encoding_of;
use crate::engine::change_from_bytes;
use crate::engine::change_from_desc;
use crate::engine::change_raw_bytes;
use crate::engine::decode_admissible;
use crate::engine::decoded_desc_of;
use crate::engine::desc_plain_values;
use crate::engine::is_change_desc_json;
use crate::engine::is_change_encoding;
use crate::engine::parse_change_desc;
use crate::engine::parseable_desc;
use crate::engine::parseable_record;
use crate::engine::parsed_desc_of;
use crate::errors::BackendError;

verus! {

/// Encode a structured change description, given in its interchange (JSON)
/// form, into the engine's binary change record. It succeeds exactly when
/// the description parses — in particular on the canonical interchange form
/// of any plain-valued description — and returns the binary encoding of the
/// parsed description; what does not parse is a decode error.
pub fn encode_change(desc: &Vec<u8>) -> (r: Result<Vec<u8>, BackendError>)
    ensures
        r is Ok <==> parseable_desc(desc@),
        is_change_desc_json(desc@) ==> r is Ok,
        r matches Ok(v) ==> v@ == change_encoding_of(parsed_desc_of(desc@)),
        r matches Ok(v) ==> is_change_encoding(v@),
        forall|c: ExpandedChange|
            desc@ == change_desc_json_of(c) && #[trigger] desc_plain_values(c)
                ==> r is Ok && r->Ok_0@ == change_encoding_of(c),
        r matches Err(e) ==> e is Decode,
{
    match parse_change_desc(desc) {
        Ok(parsed) => {
            let record = change_from_desc(&parsed);
            let bytes = change_raw_bytes(&record);
            proof {
                assert(bytes@ == change_encoding_of(parsed));
            }
            Ok(bytes)
        },
        Err(m) => {
            proof {
                if is_change_desc_json(desc@) {
                    let c = choose|c: ExpandedChange|
                        desc@ == change_desc_json_of(c) && desc_plain_values(c);
                    assert(false);
                }
            }
            Err(BackendError::Decode(m))
        },
    }
}

/// Decode a binary change record back into the interchange form of its
/// structured description. Bytes that do not parse as a change are a decode
/// error, with no other effect.
///
/// This is the codec's round-trip law: on any record that is the encoding
/// of some structured description — in particular on everything
/// `encode_change` and the mutation protocol return — decoding succeeds and
/// yields the description with that very binary encoding, in canonical
/// interchange form. The precondition owes only that bytes which parse are
/// engine-produced: the engine's decoder indexes a record's actor table
/// without bounds checks, so on crafted bytes that merely parse it aborts
/// (as it does for the engine's own callers).
pub fn decode_change(bytes: &Vec<u8>) -> (r: Result<Vec<u8>, BackendError>)
    requires
        decode_admissible(bytes@),
    ensures
        r is Ok <==> parseable_record(bytes@),
        r matches Ok(v) ==> v@ == change_desc_json_of(decoded_desc_of(bytes@))
            && change_encoding_of(decoded_desc_of(bytes@)) == bytes@,
        r matches Err(e) ==> e is Decode,
{
    match change_from_bytes(bytes) {
        Ok(record) => {
            let desc = change_decode(&record);
            Ok(change_desc_json(&desc))
        },
        Err(m) => Err(BackendError::Decode(m)),
    }
}

} // verus!
