use college_directory::directory::Directory;
use college_directory::errors::ApiError;
use college_directory::import::{
    CollegeImport, RecordOutcome, StorageEvent, UploadResponse,
};
use college_directory::models::{College, CollegeWithContact, ContactInfo};

fn record(name: &str, district: &str, city: &str) -> CollegeImport {
    CollegeImport {
        name: name.to_string(),
        category: "Engineering".to_string(),
        district: district.to_string(),
        city: city.to_string(),
        college_type: "Government".to_string(),
        autonomous: Some(true),
        minority: None,
        hostel_available: Some(true),
        established_year: Some(1854),
        phone: None,
        email: None,
        website: None,
        address: None,
        pincode: None,
    }
}

fn batch() -> Vec<CollegeImport> {
    vec![
        CollegeImport {
            phone: Some("020-25507000".to_string()),
            ..record("COEP", "Pune", "Pune")
        },
        record("VJTI", "Mumbai", "Mumbai"),
        CollegeImport {
            email: Some("office@vnit.example".to_string()),
            pincode: Some("440010".to_string()),
            ..record("VNIT", "Nagpur", "Nagpur")
        },
    ]
}

fn all_updated(n: usize) -> UploadResponse {
    UploadResponse {
        message: "Upload completed".to_string(),
        inserted: 0,
        updated: n,
        errors: Vec::new(),
    }
}

#[test]
fn new_directory_is_empty() {
    let directory = Directory::new();
    assert_eq!(directory.len(), 0);
    assert!(directory.find(1).is_err());
}

#[test]
fn first_import_inserts_under_fresh_ids() {
    let mut directory = Directory::new();
    let summary = directory.import(&batch());
    assert_eq!(
        summary,
        UploadResponse {
            message: "Upload completed".to_string(),
            inserted: 3,
            updated: 0,
            errors: Vec::new(),
        }
    );
    assert_eq!(directory.len(), 3);
    assert_eq!(directory.find(1).unwrap().name, "COEP");
    assert_eq!(directory.find(2).unwrap().name, "VJTI");
    assert_eq!(directory.find(3).unwrap().name, "VNIT");
}

#[test]
fn importing_the_same_batch_again_only_updates() {
    let mut directory = Directory::new();
    directory.import(&batch());
    let rows_after_first = directory.len();
    let first: Vec<CollegeWithContact> =
        (1..=3).map(|id| directory.find(id).unwrap()).collect();
    let summary = directory.import(&batch());
    assert_eq!(summary, all_updated(3));
    assert_eq!(directory.len(), rows_after_first);
    let second: Vec<CollegeWithContact> =
        (1..=3).map(|id| directory.find(id).unwrap()).collect();
    assert_eq!(first, second);
    assert_eq!(directory.import(&batch()), all_updated(3));
    assert_eq!(directory.len(), rows_after_first);
}

#[test]
fn batch_that_repeats_a_key_inserts_once() {
    let mut directory = Directory::new();
    let twice = vec![
        record("COEP", "Pune", "Pune"),
        CollegeImport { category: "Technology".to_string(), ..record("COEP", "Pune", "Pune") },
    ];
    let summary = directory.import(&twice);
    assert_eq!(summary.inserted, 1);
    assert_eq!(summary.updated, 1);
    assert_eq!(directory.len(), 1);
    assert_eq!(directory.find(1).unwrap().category, "Technology");
    assert_eq!(directory.import(&twice), all_updated(2));
    assert_eq!(directory.len(), 1);
}

#[test]
fn contact_details_are_merged_not_overwritten() {
    let mut directory = Directory::new();
    let phone_only = CollegeImport {
        phone: Some("020-25507000".to_string()),
        ..record("COEP", "Pune", "Pune")
    };
    let email_only = CollegeImport {
        email: Some("office@coep.example".to_string()),
        ..record("COEP", "Pune", "Pune")
    };
    assert_eq!(directory.import_record(&phone_only), RecordOutcome::Inserted);
    assert_eq!(directory.import_record(&email_only), RecordOutcome::Updated);
    let stored = directory.find(1).unwrap();
    assert_eq!(stored.phone, Some("020-25507000".to_string()));
    assert_eq!(stored.email, Some("office@coep.example".to_string()));
    assert_eq!(stored.website, None);
    assert_eq!(stored.address, None);
    assert_eq!(stored.pincode, None);
    assert_eq!(directory.len(), 1);
}

#[test]
fn new_detail_replaces_the_stored_one() {
    let mut directory = Directory::new();
    let old = CollegeImport {
        phone: Some("old".to_string()),
        pincode: Some("411005".to_string()),
        ..record("COEP", "Pune", "Pune")
    };
    let new = CollegeImport { phone: Some("new".to_string()), ..record("COEP", "Pune", "Pune") };
    directory.import_record(&old);
    directory.import_record(&new);
    let stored = directory.find(1).unwrap();
    assert_eq!(stored.phone, Some("new".to_string()));
    assert_eq!(stored.pincode, Some("411005".to_string()));
}

#[test]
fn record_without_details_leaves_stored_details() {
    let mut directory = Directory::new();
    let full = CollegeImport {
        phone: Some("1".to_string()),
        email: Some("2".to_string()),
        website: Some("3".to_string()),
        address: Some("4".to_string()),
        pincode: Some("5".to_string()),
        ..record("COEP", "Pune", "Pune")
    };
    directory.import_record(&full);
    assert_eq!(directory.import_record(&record("COEP", "Pune", "Pune")), RecordOutcome::Updated);
    let stored = directory.find(1).unwrap();
    assert_eq!(stored.phone, Some("1".to_string()));
    assert_eq!(stored.email, Some("2".to_string()));
    assert_eq!(stored.website, Some("3".to_string()));
    assert_eq!(stored.address, Some("4".to_string()));
    assert_eq!(stored.pincode, Some("5".to_string()));
}

#[test]
fn update_replaces_every_field_but_id_and_key() {
    let mut directory = Directory::new();
    directory.import_record(&record("COEP", "Pune", "Pune"));
    let changed = CollegeImport {
        category: "Technology".to_string(),
        college_type: "Autonomous".to_string(),
        autonomous: None,
        minority: Some(false),
        hostel_available: None,
        established_year: None,
        ..record("COEP", "Pune", "Pune")
    };
    assert_eq!(directory.import_record(&changed), RecordOutcome::Updated);
    assert_eq!(
        directory.find(1).unwrap(),
        CollegeWithContact {
            id: 1,
            name: "COEP".to_string(),
            category: "Technology".to_string(),
            district: "Pune".to_string(),
            city: "Pune".to_string(),
            college_type: "Autonomous".to_string(),
            autonomous: None,
            minority: Some(false),
            hostel_available: None,
            established_year: None,
            phone: None,
            email: None,
            website: None,
            address: None,
            pincode: None,
        }
    );
}

#[test]
fn natural_key_is_name_district_and_city_together() {
    let mut directory = Directory::new();
    let records = vec![
        record("Model College", "Pune", "Pune"),
        record("Model College", "Pune", "Baramati"),
        record("Model College", "Thane", "Pune"),
        record("Model college", "Pune", "Pune"),
    ];
    let summary = directory.import(&records);
    assert_eq!(summary.inserted, 4);
    assert_eq!(summary.updated, 0);
    assert_eq!(directory.len(), 4);
}

#[test]
fn writes_answer_as_the_store_does() {
    let mut directory = Directory::new();
    let coep = record("COEP", "Pune", "Pune");
    assert_eq!(
        directory.write_college(&coep),
        StorageEvent::CollegeWritten { id: 1, was_insert: Some(true) }
    );
    assert_eq!(
        directory.write_college(&coep),
        StorageEvent::CollegeWritten { id: 1, was_insert: Some(false) }
    );
    assert_eq!(directory.write_contact(1, &coep), StorageEvent::ContactWritten);
    assert_eq!(
        directory.write_contact(2, &coep),
        StorageEvent::Failed("contact details refer to a college that does not exist".to_string())
    );
    assert_eq!(directory.len(), 1);
}

#[test]
fn lookup_of_an_id_that_no_college_has() {
    let mut directory = Directory::new();
    directory.import(&batch());
    let missing = directory.find(999999);
    assert_eq!(
        missing,
        Err(ApiError::NotFound("College not found with id: 999999".to_string()))
    );
    assert_eq!(missing.unwrap_err().status_code(), 404);
}

#[test]
fn lookup_joins_the_contact_details() {
    let mut directory = Directory::new();
    directory.import(&batch());
    let vnit = directory.find(3).unwrap();
    assert_eq!(vnit.id, 3);
    assert_eq!(vnit.email, Some("office@vnit.example".to_string()));
    assert_eq!(vnit.pincode, Some("440010".to_string()));
    assert_eq!(vnit.phone, None);
    let vjti = directory.find(2).unwrap();
    assert_eq!(vjti.phone, None);
    assert_eq!(vjti.email, None);
}

#[test]
fn left_join_shows_a_college_without_contact_row() {
    let college = College {
        id: 5,
        name: "VJTI".to_string(),
        category: "Engineering".to_string(),
        district: "Mumbai".to_string(),
        city: "Mumbai".to_string(),
        college_type: "Government".to_string(),
        autonomous: Some(true),
        minority: None,
        hostel_available: None,
        established_year: Some(1887),
    };
    let alone = CollegeWithContact::join(&college, &Vec::new());
    assert_eq!(alone.id, 5);
    assert_eq!(alone.name, "VJTI");
    assert_eq!(alone.established_year, Some(1887));
    assert_eq!(alone.phone, None);
    assert_eq!(alone.pincode, None);
    assert_eq!(alone, CollegeWithContact::with_contact(&college, None));
    let contact = |id: i32, college_id: i32, phone: &str| ContactInfo {
        id,
        college_id,
        phone: Some(phone.to_string()),
        email: None,
        address: Some("Matunga".to_string()),
        website: None,
        pincode: Some("400019".to_string()),
    };
    let others = vec![contact(1, 4, "020-25507000"), contact(2, 6, "0712-2222828")];
    assert_eq!(CollegeWithContact::join(&college, &others), alone);
    let contacts = vec![
        contact(1, 4, "020-25507000"),
        contact(2, 5, "022-24198101"),
        contact(3, 6, "0712-2222828"),
    ];
    let joined = CollegeWithContact::join(&college, &contacts);
    assert_eq!(joined.id, 5);
    assert_eq!(joined.name, "VJTI");
    assert_eq!(joined.phone, Some("022-24198101".to_string()));
    assert_eq!(joined.email, None);
    assert_eq!(joined.address, Some("Matunga".to_string()));
    assert_eq!(joined.pincode, Some("400019".to_string()));
    assert_eq!(joined, CollegeWithContact::with_contact(&college, Some(&contacts[1])));
}
