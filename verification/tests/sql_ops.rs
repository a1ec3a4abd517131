use af_postgres::hex::{to_lower_hex, uuid_to_string};
use af_postgres::postgres::sql_ops::{
    collab_update_params, md5_hex, INSERT_COLLAB_UPDATE_SQL, INSERT_USER_SQL,
    SELECT_WORKSPACE_IDS_FOR_OWNER_SQL,
};
use uuid::Uuid;

#[test]
fn lower_hex_of_bytes() {
    assert_eq!(to_lower_hex(&[]), "");
    assert_eq!(to_lower_hex(&[0x00, 0x0f, 0xa0, 0xff, 0x7b]), "000fa0ff7b");
}

#[test]
fn uuid_text_matches_uuid_display() {
    let ids = [
        "67e55044-10b1-426f-9247-bb680e5fe0c8",
        "00000000-0000-0000-0000-000000000000",
        "ffffffff-ffff-ffff-ffff-ffffffffffff",
        "a1a2a3a4-b1b2-c1c2-d1d2-d3d4d5d6d7d8",
    ];
    for id in ids {
        let u = Uuid::parse_str(id).unwrap();
        assert_eq!(uuid_to_string(u.as_bytes()), u.to_string());
        assert_eq!(uuid_to_string(u.as_bytes()), id);
    }
}

#[test]
fn md5_hex_known_values() {
    assert_eq!(md5_hex(""), "d41d8cd98f00b204e9800998ecf8427e");
    assert_eq!(md5_hex("abc"), "900150983cd24fb0d6963f7d28e17f72");
    assert_eq!(
        md5_hex("The quick brown fox jumps over the lazy dog"),
        "9e107d9d372bb6826bd81d3542a419d6"
    );
    let text = "héllo wörld";
    assert_eq!(md5_hex(text), format!("{:x}", md5::compute(text.as_bytes())));
}

#[test]
fn collab_update_params_fields() {
    let oid = Uuid::parse_str("67e55044-10b1-426f-9247-bb680e5fe0c8").unwrap();
    let ws = Uuid::parse_str("a1a2a3a4-b1b2-c1c2-d1d2-d3d4d5d6d7d8").unwrap();
    let p = collab_update_params(oid.as_bytes(), "héllo", 3, 42, ws.as_bytes());
    assert_eq!(p.oid, "67e55044-10b1-426f-9247-bb680e5fe0c8");
    assert_eq!(p.value, "héllo".as_bytes().to_vec());
    assert_eq!(p.value_size, 6);
    assert_eq!(p.partition_key, 3);
    assert_eq!(p.uid, 42);
    assert_eq!(p.md5, format!("{:x}", md5::compute("héllo".as_bytes())));
    assert_eq!(p.workspace_id, *ws.as_bytes());
}

#[test]
fn statements_text() {
    assert!(INSERT_COLLAB_UPDATE_SQL.contains(
        "INSERT INTO af_collab_update (oid, value, value_size, partition_key, uid, md5, workspace_id)"
    ));
    assert!(INSERT_COLLAB_UPDATE_SQL.contains("VALUES ($1, $2, $3, $4, $5, $6, $7)"));
    assert!(INSERT_USER_SQL.contains("RETURNING uid"));
    assert!(SELECT_WORKSPACE_IDS_FOR_OWNER_SQL.contains("WHERE owner_uid = $1"));
}
