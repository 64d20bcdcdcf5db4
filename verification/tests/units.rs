use asim_desktop::accounts::{
    prepare_registration,
    auth_db_error, check_credentials, new_auth_item, profile_db_error, profile_from_item, profile_put_request,
    profile_registration_result, registration_result, PutOutcome,
};
use asim_desktop::crypto::get_hash;
use asim_desktop::date::Date;
use asim_desktop::hex::encode_hex;
use asim_desktop::item::{list_texts, AttrValue, Item};
use asim_desktop::models::{client_facing, AuthError, UserProfile};
use asim_desktop::tables::{
    auth_table, poll_step, profiles_table, wait_after_create, CreateOutcome, PollAction, TableStatus,
};
use asim_desktop::deletion::{delete_start, delete_step, DeleteAction, DeleteEvent};

#[test]
fn encode_hex_is_upper_case_two_digits_per_byte() {
    assert_eq!(encode_hex(&[0xbe, 0xef, 0x00, 0x0a]), "BEEF000A");
    assert_eq!(encode_hex(&[]), "");
    assert_eq!(encode_hex(&[0x7f]), "7F");
}

#[test]
fn encode_hex_length_law() {
    let bytes: Vec<u8> = (0u8..=255).collect();
    let s = encode_hex(&bytes);
    assert_eq!(s.len(), 512);
    assert!(s.chars().all(|c| c.is_ascii_digit() || ('A'..='F').contains(&c)));
}

#[test]
fn get_hash_is_salted_sha256_in_hex() {
    // SHA-256 of the empty string.
    assert_eq!(get_hash("", ""), "E3B0C44298FC1C149AFBF4C8996FB92427AE41E4649B934CA495991B7852B855");
    // SHA-256 of "abc": salt "ab" followed by password "c".
    assert_eq!(get_hash("c", "ab"), "BA7816BF8F01CFEA414140DE5DAE2223B00361A396177A9CB410FF61F20015AD");
    assert_eq!(get_hash("bc", "a"), get_hash("c", "ab"));
    assert_ne!(get_hash("password", "salt"), get_hash("salt", "password"));
    assert_eq!(get_hash("héllo", "sel").len(), 64);
}

#[test]
fn dates_follow_the_calendar() {
    assert!(Date::from_ymd_opt(2015, 3, 14).is_some());
    assert!(Date::from_ymd_opt(2015, 0, 14).is_none());
    assert!(Date::from_ymd_opt(2015, 2, 29).is_none());
    assert!(Date::from_ymd_opt(2016, 2, 29).is_some());
    assert!(Date::from_ymd_opt(1900, 2, 29).is_none());
    assert!(Date::from_ymd_opt(2000, 2, 29).is_some());
    assert!(Date::from_ymd_opt(-4, 2, 29).is_some());
    assert!(Date::from_ymd_opt(2015, 4, 31).is_none());
    assert!(Date::from_ymd_opt(400000, 1, 1).is_none());
    assert!(Date::from_ymd_opt(-400000, 1, 1).is_none());
    assert!(Date::from_ymd_opt(262142, 12, 31).is_some());
    assert!(Date::from_ymd_opt(262143, 1, 1).is_none());
    assert!(Date::from_ymd_opt(-262143, 1, 1).is_some());
    assert!(Date::from_ymd_opt(-262144, 12, 31).is_none());
}

#[test]
fn dates_write_as_iso_text() {
    let d = Date::from_ymd_opt(2000, 1, 1).unwrap();
    assert_eq!(d.to_iso_string(), "2000-01-01");
    assert_eq!(Date::from_ymd_opt(987, 6, 5).unwrap().to_iso_string(), "0987-06-05");
    assert_eq!(Date::from_ymd_opt(12345, 6, 7).unwrap().to_iso_string(), "+12345-06-07");
    assert_eq!(Date::from_ymd_opt(-1, 1, 2).unwrap().to_iso_string(), "-0001-01-02");
    assert_eq!(Date::epoch().to_iso_string(), "1970-01-01");
}

#[test]
fn dates_read_back() {
    let d = Date::from_ymd_opt(1999, 12, 31).unwrap();
    assert_eq!(Date::parse_iso(&d.to_iso_string()), Some(d));
    assert_eq!(Date::parse_iso("2015-09-18"), Date::from_ymd_opt(2015, 9, 18));
    for (y, m, d) in [(0, 1, 1), (987, 6, 5), (9999, 12, 31), (2024, 2, 29), (12345, 6, 7), (-1, 1, 2), (262142, 12, 31), (-262143, 1, 1), (10000, 1, 1)] {
        let date = Date::from_ymd_opt(y, m, d).unwrap();
        assert_eq!(Date::parse_iso(&date.to_iso_string()), Some(date));
    }
    assert_eq!(Date::parse_iso("not a date"), None);
    assert_eq!(Date::parse_iso("2015-02-30"), None);
    let p = Date::parse_iso("2024-02-29").unwrap();
    assert_eq!((p.year(), p.month(), p.day()), (2024, 2, 29));
}

#[test]
fn item_insert_replaces_and_get_reads() {
    let mut item = Item::new();
    assert!(item.get("a").is_none());
    item.insert("a".to_string(), AttrValue::S("1".to_string()));
    item.insert("b".to_string(), AttrValue::Other);
    item.insert("a".to_string(), AttrValue::S("2".to_string()));
    assert_eq!(item.entries.len(), 2);
    assert_eq!(item.get_text("a").map(|s| s.as_str()), Some("2"));
    assert!(item.get("b").is_some());
    assert!(item.get_text("b").is_none());
    assert!(item.get("c").is_none());
}

#[test]
fn list_texts_keeps_strings_in_order() {
    let l = vec![
        AttrValue::S("x".to_string()),
        AttrValue::Other,
        AttrValue::L(vec![]),
        AttrValue::S("y".to_string()),
    ];
    assert_eq!(list_texts(&l), vec!["x".to_string(), "y".to_string()]);
}

#[test]
fn credentials_checks_in_order() {
    assert_eq!(check_credentials("pw", None), Err(AuthError::Client("User not found".to_string())));
    let mut item = Item::new();
    assert_eq!(check_credentials("pw", Some(item)), Err(AuthError::Internal("Missing salt in DB".to_string())));
    item = Item::new();
    item.insert("userSalt".to_string(), AttrValue::S("AB".to_string()));
    assert_eq!(
        check_credentials("pw", Some(item)),
        Err(AuthError::Internal("Missing password in DB".to_string()))
    );
    let mut item = Item::new();
    item.insert("userSalt".to_string(), AttrValue::S("AB".to_string()));
    item.insert("password".to_string(), AttrValue::S(get_hash("pw", "AB")));
    assert_eq!(check_credentials("pw", Some(item)), Err(AuthError::Internal("Missing UUID in DB".to_string())));
    let mut item = Item::new();
    item.insert("userSalt".to_string(), AttrValue::S("AB".to_string()));
    item.insert("password".to_string(), AttrValue::S(get_hash("pw", "AB")));
    item.insert("uuid".to_string(), AttrValue::S("id-1".to_string()));
    assert_eq!(check_credentials("nope", Some(item)), Err(AuthError::Client("Incorrect password".to_string())));
}

#[test]
fn registered_credentials_accept_the_password() {
    let salt = [7u8; 16];
    let item = new_auth_item("dora", "hunter2", "id-7", &salt);
    assert_eq!(item.get_text("userSalt").unwrap(), &encode_hex(&salt));
    assert_eq!(item.get_text("password").unwrap(), &get_hash("hunter2", &encode_hex(&salt)));
    let mut copy = Item::new();
    for (k, v) in &item.entries {
        if let AttrValue::S(s) = v {
            copy.insert(k.clone(), AttrValue::S(s.clone()));
        }
    }
    assert_eq!(check_credentials("hunter2", Some(copy)), Ok("id-7".to_string()));
    assert_eq!(check_credentials("hunter3", Some(item)), Err(AuthError::Client("Incorrect password".to_string())));
}

#[test]
fn registration_answers() {
    assert_eq!(registration_result("id".to_string(), PutOutcome::Stored), Ok("id".to_string()));
    assert_eq!(
        registration_result("id".to_string(), PutOutcome::ConditionFailed),
        Err(AuthError::Client("User already exists".to_string()))
    );
    assert_eq!(
        registration_result("id".to_string(), PutOutcome::Failed("boom".to_string())),
        Err(AuthError::Internal("Failed to register user".to_string()))
    );
    assert_eq!(profile_registration_result(PutOutcome::Stored), Ok(()));
    assert_eq!(
        profile_registration_result(PutOutcome::Failed("boom".to_string())),
        Err(AuthError::Internal("Database error while creating profile: boom".to_string()))
    );
}

#[test]
fn database_error_messages() {
    assert_eq!(auth_db_error("timeout"), AuthError::Internal("Auth DB error: timeout".to_string()));
    assert_eq!(profile_db_error("timeout"), AuthError::Internal("Profile DB error: timeout".to_string()));
}

#[test]
fn missing_fields_read_as_defaults() {
    let mut item = Item::new();
    item.insert("dob".to_string(), AttrValue::S("garbage".to_string()));
    item.insert("interests".to_string(), AttrValue::S("not a list".to_string()));
    let p = profile_from_item("eve", "id-9", Some(item)).unwrap();
    assert_eq!(p.username, "eve");
    assert_eq!(p.uuid, "id-9");
    assert_eq!(p.name, "");
    assert_eq!(p.dob, Date::epoch());
    assert!(p.interests.is_empty());
    assert_eq!(
        profile_from_item("eve", "id-9", None).unwrap_err(),
        AuthError::Internal("User profile missing for authenticated user".to_string())
    );
}

#[test]
fn profile_write_has_the_stored_shape() {
    let p = UserProfile {
        uuid: "u1".to_string(),
        name: "N".to_string(),
        username: "un".to_string(),
        gender: "g".to_string(),
        dob: Date::from_ymd_opt(1990, 7, 4).unwrap(),
        star_sign: "Cancer".to_string(),
        interests: vec!["a".to_string()],
    };
    let r = profile_put_request(&p);
    assert_eq!(r.table, "users_profiles");
    assert_eq!(r.condition, "attribute_not_exists(#u)");
    assert_eq!(r.names, vec![("#u".to_string(), "uuid".to_string())]);
    assert_eq!(r.item.entries.len(), 7);
    assert_eq!(r.item.get_text("dob").unwrap(), "1990-07-04");
    assert_eq!(r.item.get_text("uuid").unwrap(), "u1");
}

#[test]
fn internal_errors_are_hidden_from_users() {
    assert_eq!(
        client_facing(AuthError::Internal("Auth DB error: x".to_string())),
        AuthError::Client("There was an error on the server side".to_string())
    );
    assert_eq!(client_facing(AuthError::Client("User not found".to_string())), AuthError::Client("User not found".to_string()));
}

#[test]
fn tables_and_creation() {
    assert_eq!(auth_table().name, "users_auth");
    assert_eq!(auth_table().key, "username");
    assert_eq!(profiles_table().name, "users_profiles");
    assert_eq!(profiles_table().key, "uuid");
    assert!(wait_after_create(CreateOutcome::Created));
    assert!(wait_after_create(CreateOutcome::AlreadyExists));
    assert!(!wait_after_create(CreateOutcome::Failed));
}

#[test]
fn polling_gives_up_after_twenty_answers() {
    let mut attempts = 0u32;
    let mut asked = 0;
    let result = loop {
        asked += 1;
        match poll_step(attempts, TableStatus::NotActive) {
            PollAction::Ready => break true,
            PollAction::GiveUp => break false,
            PollAction::Retry { attempts: a, delay_secs } => {
                assert_eq!(delay_secs, 2);
                attempts = a;
            }
        }
    };
    assert!(!result);
    assert_eq!(asked, 20);
    assert_eq!(poll_step(5, TableStatus::Active), PollAction::Ready);
    assert_eq!(poll_step(0, TableStatus::DescribeFailed), PollAction::Retry { attempts: 1, delay_secs: 2 });
}

#[test]
fn deletion_stops_on_failure() {
    let (s, a) = delete_start("id-1");
    match &a {
        DeleteAction::Read(r) => {
            assert_eq!(r.table, "users_profiles");
            assert_eq!(r.key_name, "uuid");
            assert_eq!(r.key_value, "id-1");
        }
        _ => panic!("expected a read"),
    }
    let mut item = Item::new();
    item.insert("username".to_string(), AttrValue::S("frank".to_string()));
    let (s, a) = delete_step(s, DeleteEvent::ProfileRead(Some(item)));
    assert!(matches!(a, DeleteAction::Delete(ref r) if r.table == "users_profiles" && r.key_value == "id-1"));
    let (s, a) = delete_step(s, DeleteEvent::Deleted);
    assert!(matches!(a, DeleteAction::Delete(ref r) if r.table == "users_auth" && r.key_name == "username" && r.key_value == "frank"));
    let (_, a) = delete_step(s, DeleteEvent::DeleteFailed);
    assert!(matches!(a, DeleteAction::Finish(false)));

    let (s, _) = delete_start("id-2");
    let (_, a) = delete_step(s, DeleteEvent::ProfileRead(Some(Item::new())));
    assert!(matches!(a, DeleteAction::Finish(false)));
}

#[test]
fn registrations_get_fresh_random_ids_and_salts() {
    let a = prepare_registration("gina", "pw");
    let b = prepare_registration("gina", "pw");
    for r in [&a, &b] {
        let id: Vec<char> = r.user_id.chars().collect();
        assert_eq!(id.len(), 36);
        for (i, c) in id.iter().enumerate() {
            if [8, 13, 18, 23].contains(&i) {
                assert_eq!(*c, '-');
            } else {
                assert!(c.is_ascii_digit() || ('a'..='f').contains(c));
            }
        }
        assert_eq!(id[14], '4');
        assert!("89ab".contains(id[19]));
        assert_eq!(r.salt.len(), 16);
        assert_eq!(r.request.table, "users_auth");
        assert_eq!(r.request.condition, "attribute_not_exists(username)");
        assert_eq!(r.request.item.get_text("userSalt").unwrap(), &encode_hex(&r.salt));
        assert_eq!(r.request.item.get_text("uuid").unwrap(), &r.user_id);
    }
    assert_ne!(a.user_id, b.user_id);
    assert_ne!(a.salt, b.salt);
    assert_ne!(a.request.item.get_text("password"), b.request.item.get_text("password"));
}

#[test]
fn encode_hex_tells_inputs_apart() {
    let inputs: Vec<Vec<u8>> = vec![vec![], vec![0], vec![0, 0], vec![1], vec![16], vec![1, 0], vec![0, 1], vec![255]];
    for (i, a) in inputs.iter().enumerate() {
        for (j, b) in inputs.iter().enumerate() {
            assert_eq!(encode_hex(a) == encode_hex(b), i == j);
        }
    }
}
