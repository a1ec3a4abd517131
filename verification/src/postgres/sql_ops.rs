//! The statements that the tool sends, and the parameters that go with them.

use vstd::prelude::*;
use vstd::string::StringSliceAdditionalSpecFns;
use vstd::string::StrSliceExecFns;
use crate::hex::{hyphenated, lemma_lower_hex_len, lower_hex, to_lower_hex, uuid_to_string};

verus! {

/// Inserts one update of a collab object; its parameters are those of
/// `CollabUpdateParams`, in field order.
pub const INSERT_COLLAB_UPDATE_SQL: &'static str = "\n        INSERT INTO af_collab_update (oid, value, value_size, partition_key, uid, md5, workspace_id)\n        VALUES ($1, $2, $3, $4, $5, $6, $7)\n    ";

/// Inserts a user from its UUID, email and name, and returns the new `uid`.
pub const INSERT_USER_SQL: &'static str = "\n        INSERT INTO af_user (uuid, email, name)\n        VALUES ($1, $2, $3)\n        RETURNING uid\n    ";

/// Selects the ids of the workspaces whose owner is the given `uid`.
pub const SELECT_WORKSPACE_IDS_FOR_OWNER_SQL: &'static str = "\n        SELECT workspace_id\n        FROM af_workspace\n        WHERE owner_uid = $1\n    ";

/// The MD5 digest of `data`, as the `md5` crate computes it.
pub uninterp spec fn md5_of(data: Seq<u8>) -> Seq<u8>;

/// `md5::compute`: the 16-byte MD5 digest of the bytes given. The contract
/// says that the result is the digest named `md5_of` of exactly these bytes;
/// what that digest is, it leaves to the `md5` crate.
#[verifier::external_body]
fn md5_compute(data: &[u8]) -> (d: [u8; 16])
    ensures
        d@ == md5_of(data@),
{
    md5::compute(data).0
}

/// The lowercase hexadecimal MD5 digest of the UTF-8 bytes of `value`.
pub fn md5_hex(value: &str) -> (r: String)
    ensures
        r@ == lower_hex(md5_of(value.spec_bytes())),
        r@.len() == 32,
{
    let digest = md5_compute(value.as_bytes());
    proof {
        lemma_lower_hex_len(digest@);
    }
    to_lower_hex(digest.as_slice())
}

/// The parameters of `INSERT_COLLAB_UPDATE_SQL`, in order.
pub struct CollabUpdateParams {
    /// The collab object's id, as hyphenated text.
    pub oid: String,
    /// The update's UTF-8 bytes.
    pub value: Vec<u8>,
    /// The number of those bytes, as a 32-bit integer.
    pub value_size: i32,
    pub partition_key: i32,
    pub uid: i64,
    /// The lowercase hexadecimal MD5 digest of `value`.
    pub md5: String,
    /// The workspace's id, as the UUID's 16 bytes.
    pub workspace_id: [u8; 16],
}

/// The parameters with which one update of the collab object `oid`, written
/// by user `uid` in workspace `workspace_id`, is inserted.
pub fn collab_update_params(
    oid: &[u8; 16],
    value: &str,
    partition_key: i32,
    uid: i64,
    workspace_id: &[u8; 16],
) -> (r: CollabUpdateParams)
    ensures
        r.oid@ == hyphenated(oid@),
        r.value@ == value.spec_bytes(),
        r.value_size == (value.spec_bytes().len() as usize) as i32,
        r.partition_key == partition_key,
        r.uid == uid,
        r.md5@ == lower_hex(md5_of(value.spec_bytes())),
        r.md5@.len() == 32,
        r.oid@.len() == 36,
        r.workspace_id == *workspace_id,
{
    let md5 = md5_hex(value);
    CollabUpdateParams {
        oid: uuid_to_string(oid),
        value: value.as_bytes_vec(),
        value_size: value.len() as i32,
        partition_key,
        uid,
        md5,
        workspace_id: *workspace_id,
    }
}

} // verus!
