use crud_toy::repository::condition::{Condition, ConditionValue, Operate};
use crud_toy::repository::mongo::object_id::ObjectId;
use crud_toy::repository::mongo::MongodbError;
use crud_toy::service::workspace::WorkspaceService;

const OID: &str = "0102030405060708090a0b0c";

#[test]
fn by_id_condition_targets_the_identifier_field() {
    let c = WorkspaceService::by_id_condition(OID).unwrap();
    match c {
        Condition::Single(node) => {
            assert_eq!(node.field, "_id");
            assert!(matches!(node.operate, Operate::Eq));
            match node.value {
                ConditionValue::ObjectIdValue(oid) => {
                    assert_eq!(oid, ObjectId::from_hex(OID).unwrap());
                }
                _ => panic!("the value must be the decoded identifier"),
            }
        }
        _ => panic!("a by-identifier lookup must be a leaf condition"),
    }
}

#[test]
fn by_id_condition_rejects_bad_identifiers() {
    assert!(matches!(
        WorkspaceService::by_id_condition("short"),
        Err(MongodbError::InvalidIdentifierError)
    ));
    assert!(matches!(
        WorkspaceService::by_id_condition("zz02030405060708090a0b0c"),
        Err(MongodbError::InvalidIdentifierError)
    ));
}

#[test]
fn workspace_to_create_fills_both_timestamps_and_bare_creator() {
    let w = WorkspaceService::workspace_to_create(
        "name".to_string(),
        "desc".to_string(),
        OID.to_string(),
        1_700_000_000,
    );
    assert_eq!(w.id, "");
    assert_eq!(w.name, "name");
    assert_eq!(w.description, "desc");
    assert_eq!(w.creator.id, OID);
    assert_eq!(w.creator.username, "");
    assert_eq!(w.creator.passowrd_hash, "");
    assert_eq!(w.created_at, 1_700_000_000);
    assert_eq!(w.updated_at, 1_700_000_000);
}

#[test]
fn apply_update_rewrites_name_description_and_update_instant() {
    let w = WorkspaceService::workspace_to_create(
        "old".to_string(),
        "old-desc".to_string(),
        OID.to_string(),
        100,
    );
    let updated = WorkspaceService::apply_update(
        w,
        "new".to_string(),
        "new-desc".to_string(),
        200,
    );
    assert_eq!(updated.name, "new");
    assert_eq!(updated.description, "new-desc");
    assert_eq!(updated.updated_at, 200);
    assert_eq!(updated.created_at, 100);
    assert_eq!(updated.creator.id, OID);
}
