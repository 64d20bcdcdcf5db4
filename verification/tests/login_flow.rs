use asim_desktop::accounts::{
    auth_lookup, check_credentials, prepare_registration, profile_from_item, profile_lookup, profile_put_request,
    profile_registration_result, registration_result, KeyRequest, PutOutcome, PutRequest,
};
use asim_desktop::date::Date;
use asim_desktop::deletion::{delete_start, delete_step, DeleteAction, DeleteEvent};
use asim_desktop::item::{AttrValue, Item};
use asim_desktop::models::{AuthError, UserProfile};
use std::collections::HashMap;

/// A table store kept in memory, answering requests as the database does.
#[derive(Default)]
struct MemoryDb {
    tables: HashMap<String, HashMap<String, Item>>,
}

fn clone_value(v: &AttrValue) -> AttrValue {
    match v {
        AttrValue::S(s) => AttrValue::S(s.clone()),
        AttrValue::L(l) => AttrValue::L(l.iter().map(clone_value).collect()),
        AttrValue::Other => AttrValue::Other,
    }
}

fn clone_item(item: &Item) -> Item {
    Item { entries: item.entries.iter().map(|(k, v)| (k.clone(), clone_value(v))).collect() }
}

fn key_of(table: &str) -> &'static str {
    if table == "users_auth" {
        "username"
    } else {
        "uuid"
    }
}

impl MemoryDb {
    fn put(&mut self, req: &PutRequest) -> PutOutcome {
        let key_name = key_of(&req.table);
        let key = match req.item.get(key_name) {
            Some(AttrValue::S(s)) => s.clone(),
            _ => return PutOutcome::Failed("missing key".to_string()),
        };
        let table = self.tables.entry(req.table.clone()).or_default();
        if table.contains_key(&key) {
            return PutOutcome::ConditionFailed;
        }
        table.insert(key, clone_item(&req.item));
        PutOutcome::Stored
    }

    fn get(&self, req: &KeyRequest) -> Option<Item> {
        assert_eq!(req.key_name, key_of(&req.table));
        self.tables.get(&req.table).and_then(|t| t.get(&req.key_value)).map(clone_item)
    }

    fn delete(&mut self, req: &KeyRequest) {
        if let Some(t) = self.tables.get_mut(&req.table) {
            t.remove(&req.key_value);
        }
    }

    fn register_user(&mut self, username: &str, password: &str) -> Result<String, AuthError> {
        let reg = prepare_registration(username, password);
        let outcome = self.put(&reg.request);
        registration_result(reg.user_id, outcome)
    }

    fn register_user_profile(&mut self, profile: UserProfile) -> Result<(), AuthError> {
        let req = profile_put_request(&profile);
        let outcome = self.put(&req);
        profile_registration_result(outcome)
    }

    fn authenticate_user(&self, username: &str, password: &str) -> Result<UserProfile, AuthError> {
        let auth_item = self.get(&auth_lookup(username));
        let uuid = check_credentials(password, auth_item)?;
        let profile_item = self.get(&profile_lookup(&uuid));
        profile_from_item(username, &uuid, profile_item)
    }

    fn delete_user(&mut self, uuid: &str) -> bool {
        let (mut state, mut action) = delete_start(uuid);
        loop {
            let event = match &action {
                DeleteAction::Read(req) => DeleteEvent::ProfileRead(self.get(req)),
                DeleteAction::Delete(req) => {
                    self.delete(req);
                    DeleteEvent::Deleted
                }
                DeleteAction::Finish(done) => return *done,
            };
            let (s, a) = delete_step(state, event);
            state = s;
            action = a;
        }
    }
}

fn create_dummy_profile(uuid: String, username: String) -> UserProfile {
    UserProfile {
        uuid,
        username,
        name: "Test User".to_string(),
        gender: "Non-binary".to_string(),
        dob: Date::from_ymd_opt(2000, 1, 1).unwrap(),
        star_sign: "Capricorn".to_string(),
        interests: vec!["Rust".to_string(), "DynamoDB".to_string()],
    }
}

fn fresh_name(prefix: &str) -> String {
    format!("{}{}", prefix, prepare_registration("x", "y").user_id)
}

#[test]
fn test_successful_login() {
    let mut db = MemoryDb::default();
    let username = fresh_name("test_user_success_");
    let password = "my_secure_password";

    let uuid = db.register_user(&username, password).expect("Failed to register user");
    let profile = create_dummy_profile(uuid, username.clone());
    db.register_user_profile(profile).expect("Failed to register profile");

    let result = db.authenticate_user(&username, password);

    assert!(result.is_ok());
    let returned_profile = result.unwrap();
    assert_eq!(returned_profile.username, username);
    assert_eq!(returned_profile.interests.len(), 2);
}

#[test]
fn test_login_preexisting_user() {
    let mut db = MemoryDb::default();
    let username = fresh_name("test_user_preexisting_");
    let password = "preexisting_password";

    let uuid = db.register_user(&username, password).unwrap();
    let profile = create_dummy_profile(uuid, username.clone());
    db.register_user_profile(profile).unwrap();

    let result = db.authenticate_user(&username, password);

    assert!(result.is_ok());
    assert_eq!(result.unwrap().username, username);
}

#[test]
fn test_failed_login_wrong_password() {
    let mut db = MemoryDb::default();
    let username = fresh_name("test_user_wrong_pw_");
    let password = "my_secure_password";

    let uuid = db.register_user(&username, password).unwrap();
    let profile = create_dummy_profile(uuid, username.clone());
    db.register_user_profile(profile).unwrap();

    let result = db.authenticate_user(&username, "wrong_password");

    assert!(result.is_err());
    if let Err(AuthError::Client(msg)) = result {
        assert_eq!(msg, "Incorrect password");
    } else {
        panic!("Expected AuthError::Client for incorrect password");
    }
}

#[test]
fn test_failed_login_missing_profile() {
    let mut db = MemoryDb::default();
    let username = fresh_name("test_user_no_profile_");
    let password = "my_secure_password";

    let _uuid = db.register_user(&username, password).unwrap();

    let result = db.authenticate_user(&username, password);

    assert!(result.is_err());
    if let Err(AuthError::Internal(msg)) = result {
        assert!(msg.contains("User profile missing"));
    } else {
        panic!("Expected AuthError::Internal for missing profile data");
    }
}

#[test]
fn test_delete_user() {
    let mut db = MemoryDb::default();
    let username = fresh_name("test_user_delete_");
    let password = "delete_password";

    let uuid = db.register_user(&username, password).unwrap();
    let profile = create_dummy_profile(uuid.clone(), username.clone());
    db.register_user_profile(profile).unwrap();

    let deleted = db.delete_user(&uuid);
    assert!(deleted);

    let result = db.authenticate_user(&username, password);
    assert!(result.is_err());
    if let Err(AuthError::Client(msg)) = result {
        assert_eq!(msg, "User not found");
    } else {
        panic!("Expected AuthError::Client for missing user");
    }
}

#[test]
fn duplicate_registration_is_refused() {
    let mut db = MemoryDb::default();
    db.register_user("alice", "pw").unwrap();
    assert_eq!(db.register_user("alice", "other"), Err(AuthError::Client("User already exists".to_string())));
}

#[test]
fn duplicate_profile_is_refused() {
    let mut db = MemoryDb::default();
    let uuid = db.register_user("bob", "pw").unwrap();
    db.register_user_profile(create_dummy_profile(uuid.clone(), "bob".to_string())).unwrap();
    assert_eq!(
        db.register_user_profile(create_dummy_profile(uuid, "bob".to_string())),
        Err(AuthError::Client("Profile already exists for this user".to_string()))
    );
}

#[test]
fn profile_reads_back_whole() {
    let mut db = MemoryDb::default();
    let uuid = db.register_user("carol", "secret").unwrap();
    let mut profile = create_dummy_profile(uuid.clone(), "carol".to_string());
    profile.dob = Date::from_ymd_opt(1999, 12, 31).unwrap();
    db.register_user_profile(profile.clone()).unwrap();
    let back = db.authenticate_user("carol", "secret").unwrap();
    assert_eq!(back.uuid, uuid);
    assert_eq!(back.name, "Test User");
    assert_eq!(back.gender, "Non-binary");
    assert_eq!(back.star_sign, "Capricorn");
    assert_eq!(back.dob, profile.dob);
    assert_eq!(back.interests, vec!["Rust".to_string(), "DynamoDB".to_string()]);
}

#[test]
fn delete_of_unknown_user_fails() {
    let mut db = MemoryDb::default();
    assert!(!db.delete_user("no-such-id"));
}
