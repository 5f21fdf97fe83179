use crud_toy::entity;
use crud_toy::po;
use crud_toy::repository::mongo::object_id::ObjectId;
use crud_toy::repository::mongo::user::{
    user_find_one_result, user_from_record, user_record_for_create, user_record_for_update,
};
use crud_toy::repository::mongo::workspace::{
    workspace_find_one_result, workspace_from_record, workspace_record_for_create,
    workspace_record_for_update,
};
use crud_toy::repository::mongo::{
    delete_applied, exist_of_count, page_total, update_applied, MongodbError,
};
use crud_toy::repository::PageResult;

const OID_A: &str = "0102030405060708090a0b0c";
const OID_B: &str = "ffeeddccbbaa998877665544";

#[test]
fn user_read_redacts_password_hash() {
    let rec = po::User {
        id: Some(ObjectId::from_hex(OID_A).unwrap()),
        username: "ana".to_string(),
        passowrd_hash: "the-true-hash".to_string(),
    };
    let u = user_from_record(&rec);
    assert_eq!(u.id, OID_A);
    assert_eq!(u.username, "ana");
    assert_eq!(u.passowrd_hash, "******");
}

#[test]
fn user_read_without_identifier_gives_empty_id() {
    let rec = po::User {
        id: None,
        username: "ana".to_string(),
        passowrd_hash: "h".to_string(),
    };
    let u = user_from_record(&rec);
    assert_eq!(u.id, "");
}

#[test]
fn user_create_record_omits_identifier() {
    let u = entity::User {
        id: "ignored".to_string(),
        username: "ana".to_string(),
        passowrd_hash: "h".to_string(),
    };
    let rec = user_record_for_create(&u);
    assert_eq!(rec.id, None);
    assert_eq!(rec.username, "ana");
    assert_eq!(rec.passowrd_hash, "h");
}

#[test]
fn user_update_record_requires_valid_identifier() {
    let mut u = entity::User {
        id: OID_A.to_string(),
        username: "ana".to_string(),
        passowrd_hash: "h".to_string(),
    };
    let rec = user_record_for_update(&u).unwrap();
    assert_eq!(rec.id, Some(ObjectId::from_hex(OID_A).unwrap()));
    u.id = "not-hex".to_string();
    assert_eq!(user_record_for_update(&u), Err(MongodbError::InvalidIdentifierError));
}

#[test]
fn user_round_trip_after_create() {
    let input = entity::User {
        id: String::new(),
        username: "ana".to_string(),
        passowrd_hash: "secret-hash".to_string(),
    };
    let mut stored = user_record_for_create(&input);
    stored.id = Some(ObjectId::from_hex(OID_A).unwrap());
    let back = user_find_one_result(Some(stored)).unwrap();
    assert_eq!(back.id, OID_A);
    assert_eq!(back.username, input.username);
    assert_eq!(back.passowrd_hash, "******");
}

#[test]
fn find_one_with_no_match_is_data_not_found() {
    assert_eq!(user_find_one_result(None), Err(MongodbError::DataNotFoundError));
    assert_eq!(workspace_find_one_result(None), Err(MongodbError::DataNotFoundError));
}

#[test]
fn workspace_write_flattens_creator_to_identifier() {
    let w = entity::Workspace {
        id: String::new(),
        name: "w".to_string(),
        description: "d".to_string(),
        creator: entity::User {
            id: OID_B.to_string(),
            username: "ana".to_string(),
            passowrd_hash: "h".to_string(),
        },
        created_at: 1_600_000_000,
        updated_at: 1_600_000_001,
    };
    let rec = workspace_record_for_create(&w).unwrap();
    assert_eq!(rec.id, None);
    assert_eq!(rec.creator, ObjectId::from_hex(OID_B).unwrap());
    assert_eq!(rec.created_at, 1_600_000_000);
    assert_eq!(rec.updated_at, 1_600_000_001);
}

#[test]
fn workspace_create_rejects_bad_creator_identifier() {
    let w = entity::Workspace {
        id: String::new(),
        name: "w".to_string(),
        description: "d".to_string(),
        creator: entity::User {
            id: "nope".to_string(),
            username: String::new(),
            passowrd_hash: String::new(),
        },
        created_at: 0,
        updated_at: 0,
    };
    assert_eq!(workspace_record_for_create(&w), Err(MongodbError::InvalidIdentifierError));
}

#[test]
fn workspace_update_record_carries_both_identifiers() {
    let w = entity::Workspace {
        id: OID_A.to_string(),
        name: "w".to_string(),
        description: "d".to_string(),
        creator: entity::User {
            id: OID_B.to_string(),
            username: String::new(),
            passowrd_hash: String::new(),
        },
        created_at: 7,
        updated_at: 8,
    };
    let rec = workspace_record_for_update(&w).unwrap();
    assert_eq!(rec.id, Some(ObjectId::from_hex(OID_A).unwrap()));
    assert_eq!(rec.creator, ObjectId::from_hex(OID_B).unwrap());

    let mut bad = w.clone();
    bad.id = "x".to_string();
    assert_eq!(workspace_record_for_update(&bad), Err(MongodbError::InvalidIdentifierError));
}

#[test]
fn workspace_read_reconstructs_partial_creator() {
    let rec = po::Workspace {
        id: Some(ObjectId::from_hex(OID_A).unwrap()),
        name: "w".to_string(),
        description: "d".to_string(),
        creator: ObjectId::from_hex(OID_B).unwrap(),
        created_at: 5,
        updated_at: 6,
    };
    let w = workspace_from_record(&rec);
    assert_eq!(w.id, OID_A);
    assert_eq!(w.creator.id, OID_B);
    assert_eq!(w.creator.username, "");
    assert_eq!(w.creator.passowrd_hash, "******");
    assert_eq!(w.created_at, 5);
    assert_eq!(w.updated_at, 6);
}

#[test]
fn workspace_round_trip_after_create() {
    let input = entity::Workspace {
        id: String::new(),
        name: "w".to_string(),
        description: "d".to_string(),
        creator: entity::User {
            id: OID_B.to_string(),
            username: "ana".to_string(),
            passowrd_hash: "h".to_string(),
        },
        created_at: 11,
        updated_at: 12,
    };
    let mut stored = workspace_record_for_create(&input).unwrap();
    stored.id = Some(ObjectId::from_hex(OID_A).unwrap());
    let back = workspace_find_one_result(Some(stored)).unwrap();
    assert_eq!(back.id, OID_A);
    assert_eq!(back.name, input.name);
    assert_eq!(back.description, input.description);
    assert_eq!(back.created_at, input.created_at);
    assert_eq!(back.updated_at, input.updated_at);
    assert_eq!(back.creator.id, input.creator.id);
    assert_eq!(back.creator.username, "");
    assert_eq!(back.creator.passowrd_hash, "******");
}

#[test]
fn exist_is_any_match_at_all() {
    assert!(!exist_of_count(0));
    assert!(exist_of_count(1));
    assert!(exist_of_count(3));
}

#[test]
fn update_and_delete_report_exactly_one_touched_record() {
    assert!(!update_applied(0));
    assert!(update_applied(1));
    assert!(!update_applied(2));
    assert!(!delete_applied(0));
    assert!(delete_applied(1));
}

#[test]
fn page_total_is_absent_when_counting_is_skipped() {
    assert_eq!(page_total(true, 42), Some(42));
    assert_eq!(page_total(true, 0), Some(0));
    assert_eq!(page_total(false, 42), None);
}

#[test]
fn page_result_carries_optional_total() {
    let counted: PageResult<i32> = PageResult { datas: vec![1, 2], count: Some(9) };
    assert_eq!(counted.datas.len(), 2);
    assert_eq!(counted.count, Some(9));
    let uncounted: PageResult<i32> = PageResult { datas: vec![], count: None };
    assert_eq!(uncounted.count, None);
}
