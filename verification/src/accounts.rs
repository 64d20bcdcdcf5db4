//! Account records as they are stored, and the decisions taken on what the
//! database answers: registration, profile creation and login.

use crate::crypto::{get_hash, is_v4_uuid_text, new_user_id, password_hash, random_salt_bytes, sha256_digest, lemma_password_hash_whole_input};
use crate::date::{chrono_parse_ymd, iso_date_text, Date};
use crate::hex::{encode_hex, hex_upper};
use crate::item::{attr_text, list_texts, texts_of, AttrValue, Item};
use crate::models::{string_result_view, AuthError, AuthErrorView, UserProfile, UserProfileView};
use vstd::prelude::*;
use vstd::string::*;
use vstd::utf8::encode_utf8;

verus! {

/// The table of credentials, keyed by user name.
pub open spec fn users_auth_table() -> Seq<char> {
    "users_auth"@
}

/// The table of profiles, keyed by user id.
pub open spec fn users_profiles_table() -> Seq<char> {
    "users_profiles"@
}

pub open spec fn attr_username() -> Seq<char> {
    "username"@
}

pub open spec fn attr_uuid() -> Seq<char> {
    "uuid"@
}

pub open spec fn attr_salt() -> Seq<char> {
    "userSalt"@
}

pub open spec fn attr_password() -> Seq<char> {
    "password"@
}

pub open spec fn attr_name() -> Seq<char> {
    "name"@
}

pub open spec fn attr_gender() -> Seq<char> {
    "gender"@
}

pub open spec fn attr_dob() -> Seq<char> {
    "dob"@
}

pub open spec fn attr_star_sign() -> Seq<char> {
    "star_sign"@
}

pub open spec fn attr_interests() -> Seq<char> {
    "interests"@
}

/// The attribute names are pairwise distinct.
pub proof fn lemma_attr_names_distinct()
    ensures
        attr_username() != attr_uuid(),
        attr_username() != attr_salt(),
        attr_username() != attr_password(),
        attr_uuid() != attr_salt(),
        attr_uuid() != attr_password(),
        attr_salt() != attr_password(),
        attr_name() != attr_uuid(),
        attr_name() != attr_username(),
        attr_name() != attr_gender(),
        attr_name() != attr_dob(),
        attr_name() != attr_star_sign(),
        attr_name() != attr_interests(),
        attr_gender() != attr_uuid(),
        attr_gender() != attr_username(),
        attr_gender() != attr_dob(),
        attr_gender() != attr_star_sign(),
        attr_gender() != attr_interests(),
        attr_dob() != attr_uuid(),
        attr_dob() != attr_username(),
        attr_dob() != attr_star_sign(),
        attr_dob() != attr_interests(),
        attr_star_sign() != attr_uuid(),
        attr_star_sign() != attr_username(),
        attr_star_sign() != attr_interests(),
        attr_interests() != attr_uuid(),
        attr_interests() != attr_username(),
{
    reveal_strlit("username");
    reveal_strlit("uuid");
    reveal_strlit("userSalt");
    reveal_strlit("password");
    reveal_strlit("name");
    reveal_strlit("gender");
    reveal_strlit("dob");
    reveal_strlit("star_sign");
    reveal_strlit("interests");
    assert(attr_username().len() != attr_uuid().len());
    assert(attr_username()[4] != attr_salt()[4]);
    assert(attr_username()[0] != attr_password()[0]);
    assert(attr_uuid().len() != attr_salt().len());
    assert(attr_uuid().len() != attr_password().len());
    assert(attr_salt()[0] != attr_password()[0]);
    assert(attr_name()[0] != attr_uuid()[0]);
    assert(attr_name().len() != attr_username().len());
    assert(attr_name().len() != attr_gender().len());
    assert(attr_name().len() != attr_dob().len());
    assert(attr_name().len() != attr_star_sign().len());
    assert(attr_name().len() != attr_interests().len());
    assert(attr_gender().len() != attr_uuid().len());
    assert(attr_gender().len() != attr_username().len());
    assert(attr_gender().len() != attr_dob().len());
    assert(attr_gender().len() != attr_star_sign().len());
    assert(attr_gender().len() != attr_interests().len());
    assert(attr_dob().len() != attr_uuid().len());
    assert(attr_dob().len() != attr_username().len());
    assert(attr_dob().len() != attr_star_sign().len());
    assert(attr_dob().len() != attr_interests().len());
    assert(attr_star_sign().len() != attr_uuid().len());
    assert(attr_star_sign().len() != attr_username().len());
    assert(attr_star_sign()[0] != attr_interests()[0]);
    assert(attr_interests().len() != attr_uuid().len());
    assert(attr_interests().len() != attr_username().len());
}

/// A read or a deletion of one record, addressed by its key.
#[derive(Debug, Clone)]
pub struct KeyRequest {
    pub table: String,
    pub key_name: String,
    pub key_value: String,
}

/// A conditional write of one record. `names` maps placeholders of the
/// condition to attribute names.
#[derive(Debug)]
pub struct PutRequest {
    pub table: String,
    pub item: Item,
    pub condition: String,
    pub names: Vec<(String, String)>,
}

/// What the database answered to a conditional write.
#[derive(Debug, Clone)]
pub enum PutOutcome {
    Stored,
    ConditionFailed,
    Failed(String),
}

pub(crate) fn key_request(table: &str, key_name: &str, key_value: &str) -> (r: KeyRequest)
    ensures
        r.table@ == table@,
        r.key_name@ == key_name@,
        r.key_value@ == key_value@,
{
    KeyRequest { table: table.to_owned(), key_name: key_name.to_owned(), key_value: key_value.to_owned() }
}

fn internal_with_detail(prefix: &str, detail: &str) -> (e: AuthError)
    ensures
        e@ == AuthErrorView::Internal(prefix@ + detail@),
{
    let mut m = prefix.to_owned();
    m.append(detail);
    AuthError::Internal(m)
}

// ---------------------------------------------------------------------------
// Registration

/// The credentials record of a new account: its user name and id, the
/// hex-encoded salt, and the password hashed with that salt text; nothing
/// else.
pub open spec fn auth_item_holds(
    item: Item,
    username: Seq<char>,
    password: Seq<char>,
    user_id: Seq<char>,
    salt: Seq<u8>,
) -> bool {
    &&& item.text_spec(attr_username()) == Some(username)
    &&& item.text_spec(attr_uuid()) == Some(user_id)
    &&& item.text_spec(attr_salt()) == Some(hex_upper(salt))
    &&& item.text_spec(attr_password()) == Some(password_hash(password, hex_upper(salt)))
    &&& forall|k: Seq<char>|
        k != attr_username() && k != attr_uuid() && k != attr_salt() && k != attr_password()
            ==> #[trigger] item.get_spec(k) is None
}

/// Builds the credentials record of a new account from its random parts.
pub fn new_auth_item(username: &str, password: &str, user_id: &str, salt: &[u8]) -> (item: Item)
    ensures
        auth_item_holds(item, username@, password@, user_id@, salt@),
        item.text_spec("username"@) == Some(username@),
        item.text_spec("uuid"@) == Some(user_id@),
        item.text_spec("userSalt"@) == Some(hex_upper(salt@)),
        item.text_spec("password"@) == Some(hex_upper(sha256_digest(encode_utf8(hex_upper(salt@) + password@)))),
{
    let user_salt = encode_hex(salt);
    let pass_hash = get_hash(password, user_salt.as_str());
    let mut item = Item::new();
    item.insert("username".to_owned(), AttrValue::S(username.to_owned()));
    item.insert("uuid".to_owned(), AttrValue::S(user_id.to_owned()));
    item.insert("userSalt".to_owned(), AttrValue::S(user_salt));
    item.insert("password".to_owned(), AttrValue::S(pass_hash));
    proof {
        lemma_attr_names_distinct();
    }
    item
}

/// A registration about to be written: the new user id, the random salt, and
/// the write, which succeeds only if the user name is not taken.
#[derive(Debug)]
pub struct Registration {
    pub user_id: String,
    pub salt: Vec<u8>,
    pub request: PutRequest,
}

/// Draws a fresh user id and salt for `username` and builds the write of its
/// credentials record.
pub fn prepare_registration(username: &str, password: &str) -> (r: Registration)
    ensures
        is_v4_uuid_text(r.user_id@),
        r.salt@.len() == 16,
        r.request.table@ == users_auth_table(),
        auth_item_holds(r.request.item, username@, password@, r.user_id@, r.salt@),
        r.request.condition@ == "attribute_not_exists(username)"@,
        r.request.names@.len() == 0,
{
    let user_id = new_user_id();
    let salt = random_salt_bytes();
    let item = new_auth_item(username, password, user_id.as_str(), salt.as_slice());
    let request = PutRequest {
        table: "users_auth".to_owned(),
        item,
        condition: "attribute_not_exists(username)".to_owned(),
        names: Vec::new(),
    };
    Registration { user_id, salt, request }
}

/// The answer to a registration, given what the write of its credentials
/// record gave.
pub open spec fn registration_outcome(user_id: Seq<char>, outcome: PutOutcome) -> Result<
    Seq<char>,
    AuthErrorView,
> {
    match outcome {
        PutOutcome::Stored => Ok(user_id),
        PutOutcome::ConditionFailed => Err(AuthErrorView::Client("User already exists"@)),
        PutOutcome::Failed(_) => Err(AuthErrorView::Internal("Failed to register user"@)),
    }
}

/// Answers a registration: its user id once stored; a client error when the
/// user name is taken; an internal error otherwise.
pub fn registration_result(user_id: String, outcome: PutOutcome) -> (r: Result<String, AuthError>)
    ensures
        string_result_view(r) == registration_outcome(user_id@, outcome),
        outcome is Stored ==> (r matches Ok(id) && id@ == user_id@),
        outcome is ConditionFailed ==> (r matches Err(e) && e@ == AuthErrorView::Client("User already exists"@)),
        outcome is Failed ==> (r matches Err(e) && e@ == AuthErrorView::Internal("Failed to register user"@)),
{
    match outcome {
        PutOutcome::Stored => Ok(user_id),
        PutOutcome::ConditionFailed => Err(AuthError::Client("User already exists".to_owned())),
        PutOutcome::Failed(_) => Err(AuthError::Internal("Failed to register user".to_owned())),
    }
}

// ---------------------------------------------------------------------------
// Login

/// The read of the credentials record of `username`.
pub fn auth_lookup(username: &str) -> (r: KeyRequest)
    ensures
        r.table@ == users_auth_table(),
        r.key_name@ == attr_username(),
        r.key_value@ == username@,
        r.table@ == "users_auth"@,
        r.key_name@ == "username"@,
{
    key_request("users_auth", "username", username)
}

/// The internal error for a failed read of credentials, with the database's
/// own description.
pub fn auth_db_error(detail: &str) -> (e: AuthError)
    ensures
        e@ == AuthErrorView::Internal("Auth DB error: "@ + detail@),
{
    internal_with_detail("Auth DB error: ", detail)
}

/// The outcome of checking `password` against the credentials record that was
/// read (`None` where there is none): the stored user id, or why the login is
/// refused.
pub open spec fn credentials_outcome(password: Seq<char>, fetched: Option<Item>) -> Result<
    Seq<char>,
    AuthErrorView,
> {
    match fetched {
        None => Err(AuthErrorView::Client("User not found"@)),
        Some(item) => match item.text_spec(attr_salt()) {
            None => Err(AuthErrorView::Internal("Missing salt in DB"@)),
            Some(salt) => match item.text_spec(attr_password()) {
                None => Err(AuthErrorView::Internal("Missing password in DB"@)),
                Some(stored) => if password_hash(password, salt) != stored {
                    Err(AuthErrorView::Client("Incorrect password"@))
                } else {
                    match item.text_spec(attr_uuid()) {
                        None => Err(AuthErrorView::Internal("Missing UUID in DB"@)),
                        Some(id) => Ok(id),
                    }
                },
            },
        },
    }
}

/// Checks `password` against the credentials record that was read.
pub fn check_credentials(password: &str, fetched: Option<Item>) -> (r: Result<String, AuthError>)
    ensures
        string_result_view(r) == credentials_outcome(password@, fetched),
        fetched is None ==> (r matches Err(e) && e@ == AuthErrorView::Client("User not found"@)),
        fetched matches Some(item) ==> {
            match (item.text_spec("userSalt"@), item.text_spec("password"@), item.text_spec("uuid"@)) {
                (None, _, _) => r matches Err(e) && e@ == AuthErrorView::Internal("Missing salt in DB"@),
                (Some(_), None, _) => r matches Err(e) && e@ == AuthErrorView::Internal("Missing password in DB"@),
                (Some(salt), Some(stored), id) => if hex_upper(sha256_digest(encode_utf8(salt + password@))) != stored {
                    r matches Err(e) && e@ == AuthErrorView::Client("Incorrect password"@)
                } else {
                    match id {
                        None => r matches Err(e) && e@ == AuthErrorView::Internal("Missing UUID in DB"@),
                        Some(id) => r matches Ok(got) && got@ == id,
                    }
                },
            }
        },
{
    let item = match fetched {
        Some(item) => item,
        None => {
            return Err(AuthError::Client("User not found".to_owned()));
        },
    };
    let stored_salt = match item.get_text("userSalt") {
        Some(s) => s,
        None => {
            return Err(AuthError::Internal("Missing salt in DB".to_owned()));
        },
    };
    let stored_hash = match item.get_text("password") {
        Some(h) => h,
        None => {
            return Err(AuthError::Internal("Missing password in DB".to_owned()));
        },
    };
    let computed_hash = get_hash(password, stored_salt.as_str());
    proof {
        lemma_password_hash_whole_input(password@, password@, stored_salt@);
    }
    if !(computed_hash == *stored_hash) {
        return Err(AuthError::Client("Incorrect password".to_owned()));
    }
    match item.get_text("uuid") {
        Some(id) => Ok(id.clone()),
        None => Err(AuthError::Internal("Missing UUID in DB".to_owned())),
    }
}

/// The read of the profile of user `uuid`.
pub fn profile_lookup(uuid: &str) -> (r: KeyRequest)
    ensures
        r.table@ == users_profiles_table(),
        r.key_name@ == attr_uuid(),
        r.key_value@ == uuid@,
        r.table@ == "users_profiles"@,
        r.key_name@ == "uuid"@,
{
    key_request("users_profiles", "uuid", uuid)
}

/// The internal error for a failed read of a profile, with the database's
/// own description.
pub fn profile_db_error(detail: &str) -> (e: AuthError)
    ensures
        e@ == AuthErrorView::Internal("Profile DB error: "@ + detail@),
{
    internal_with_detail("Profile DB error: ", detail)
}

/// The text stored under `key`, empty where there is no string.
pub open spec fn text_or_empty(item: Item, key: Seq<char>) -> Seq<char> {
    match item.text_spec(key) {
        Some(t) => t,
        None => Seq::empty(),
    }
}

/// The stored date of birth: the parsed `dob` text, or the first of January
/// 1970 where it does not parse.
pub open spec fn stored_dob(item: Item) -> (i32, u32, u32) {
    match chrono_parse_ymd(text_or_empty(item, attr_dob())) {
        Some(d) => d,
        None => (1970i32, 1u32, 1u32),
    }
}

/// The stored interests: the strings of the `interests` list, none where it
/// is missing or not a list.
pub open spec fn stored_interests(item: Item) -> Seq<Seq<char>> {
    match item.get_spec(attr_interests()) {
        Some(AttrValue::L(l)) => texts_of(l@),
        _ => Seq::empty(),
    }
}

/// The profile that a stored profile record describes, for the user who
/// logged in as `username` with id `uuid`.
pub open spec fn profile_of_item(username: Seq<char>, uuid: Seq<char>, item: Item) -> UserProfileView {
    UserProfileView {
        uuid: uuid,
        name: text_or_empty(item, attr_name()),
        username: username,
        gender: text_or_empty(item, attr_gender()),
        dob: stored_dob(item),
        star_sign: text_or_empty(item, attr_star_sign()),
        interests: stored_interests(item),
    }
}

fn text_or_default(item: &Item, key: &str) -> (s: String)
    ensures
        s@ == text_or_empty(*item, key@),
{
    match item.get_text(key) {
        Some(t) => t.clone(),
        None => String::new(),
    }
}

/// Builds the profile of a logged-in user from the profile record that was
/// read; a missing record is an internal error.
pub fn profile_from_item(username: &str, uuid: &str, fetched: Option<Item>) -> (r: Result<UserProfile, AuthError>)
    ensures
        match fetched {
            None => r matches Err(e) && e@ == AuthErrorView::Internal(
                "User profile missing for authenticated user"@,
            ),
            Some(item) => r matches Ok(p) && p@ == profile_of_item(username@, uuid@, item),
        },
        fetched matches Some(item) ==> r matches Ok(p) && {
            &&& p.uuid@ == uuid@
            &&& p.username@ == username@
            &&& p.name@ == text_or_empty(item, "name"@)
            &&& p.gender@ == text_or_empty(item, "gender"@)
            &&& p.star_sign@ == text_or_empty(item, "star_sign"@)
        },
{
    let item = match fetched {
        Some(item) => item,
        None => {
            return Err(AuthError::Internal("User profile missing for authenticated user".to_owned()));
        },
    };
    let dob_str = text_or_default(&item, "dob");
    let dob = match Date::parse_iso(dob_str.as_str()) {
        Some(d) => d,
        None => Date::epoch(),
    };
    let interests = match item.get("interests") {
        Some(v) => match v.as_l() {
            Some(l) => list_texts(l),
            None => Vec::new(),
        },
        None => Vec::new(),
    };
    let p = UserProfile {
        uuid: uuid.to_owned(),
        name: text_or_default(&item, "name"),
        username: username.to_owned(),
        gender: text_or_default(&item, "gender"),
        dob,
        star_sign: text_or_default(&item, "star_sign"),
        interests,
    };
    assert(p@.interests =~= stored_interests(item));
    Ok(p)
}

// ---------------------------------------------------------------------------
// Profile creation

/// The stored record of a profile: each text under its name, the date of
/// birth as `%Y-%m-%d` text (which reads back as the date), the interests as
/// a list of strings; nothing else.
pub open spec fn profile_item_holds(item: Item, p: UserProfileView) -> bool {
    &&& item.text_spec(attr_uuid()) == Some(p.uuid)
    &&& item.text_spec(attr_username()) == Some(p.username)
    &&& item.text_spec(attr_name()) == Some(p.name)
    &&& item.text_spec(attr_gender()) == Some(p.gender)
    &&& item.text_spec(attr_dob()) == Some(iso_date_text(p.dob.0 as int, p.dob.1 as int, p.dob.2 as int))
    &&& chrono_parse_ymd(iso_date_text(p.dob.0 as int, p.dob.1 as int, p.dob.2 as int)) == Some(p.dob)
    &&& item.text_spec(attr_star_sign()) == Some(p.star_sign)
    &&& item.get_spec(attr_interests()) matches Some(AttrValue::L(l)) && l@.len() == p.interests.len()
        && forall|i: int| 0 <= i < l@.len() ==> attr_text(#[trigger] l@[i]) == Some(p.interests[i])
    &&& forall|k: Seq<char>|
        k != attr_uuid() && k != attr_username() && k != attr_name() && k != attr_gender() && k != attr_dob()
            && k != attr_star_sign() && k != attr_interests() ==> #[trigger] item.get_spec(k) is None
}

fn interests_value(interests: &Vec<String>) -> (l: Vec<AttrValue>)
    ensures
        l@.len() == interests@.len(),
        forall|i: int| 0 <= i < l@.len() ==> attr_text(#[trigger] l@[i]) == Some(interests@[i]@),
{
    let mut l: Vec<AttrValue> = Vec::new();
    let n = interests.len();
    let mut i: usize = 0;
    while i < n
        invariant
            n == interests@.len(),
            i <= n,
            l@.len() == i,
            forall|j: int| 0 <= j < i ==> attr_text(#[trigger] l@[j]) == Some(interests@[j]@),
        decreases n - i,
    {
        l.push(AttrValue::S(interests[i].clone()));
        i = i + 1;
    }
    l
}

/// The write of a new profile, which succeeds only if the user has none yet.
pub fn profile_put_request(profile: &UserProfile) -> (r: PutRequest)
    ensures
        r.table@ == users_profiles_table(),
        profile_item_holds(r.item, profile@),
        r.item.text_spec("uuid"@) == Some(profile.uuid@),
        r.item.text_spec("username"@) == Some(profile.username@),
        r.item.text_spec("name"@) == Some(profile.name@),
        r.item.text_spec("gender"@) == Some(profile.gender@),
        r.item.text_spec("dob"@) == Some(iso_date_text(profile.dob@.0 as int, profile.dob@.1 as int, profile.dob@.2 as int)),
        r.item.text_spec("star_sign"@) == Some(profile.star_sign@),
        r.item.get_spec("interests"@) matches Some(AttrValue::L(l)) && l@.len() == profile.interests@.len()
            && forall|i: int| 0 <= i < l@.len() ==> attr_text(#[trigger] l@[i]) == Some(profile.interests@[i]@),
        r.condition@ == "attribute_not_exists(#u)"@,
        r.names@.len() == 1,
        r.names@[0].0@ == "#u"@,
        r.names@[0].1@ == attr_uuid(),
{
    let dob_text = profile.dob.to_iso_string();
    let interests = interests_value(&profile.interests);
    let ghost l = interests;
    let mut item = Item::new();
    item.insert("uuid".to_owned(), AttrValue::S(profile.uuid.clone()));
    item.insert("username".to_owned(), AttrValue::S(profile.username.clone()));
    item.insert("name".to_owned(), AttrValue::S(profile.name.clone()));
    item.insert("gender".to_owned(), AttrValue::S(profile.gender.clone()));
    item.insert("dob".to_owned(), AttrValue::S(dob_text));
    item.insert("star_sign".to_owned(), AttrValue::S(profile.star_sign.clone()));
    item.insert("interests".to_owned(), AttrValue::L(interests));
    proof {
        lemma_attr_names_distinct();
        assert(item.get_spec(attr_interests()) == Some(AttrValue::L(l)));
    }
    let mut names: Vec<(String, String)> = Vec::new();
    names.push(("#u".to_owned(), "uuid".to_owned()));
    PutRequest {
        table: "users_profiles".to_owned(),
        item,
        condition: "attribute_not_exists(#u)".to_owned(),
        names,
    }
}

/// The answer to a profile creation, given what the write gave.
pub open spec fn profile_registration_outcome(outcome: PutOutcome) -> Result<(), AuthErrorView> {
    match outcome {
        PutOutcome::Stored => Ok(()),
        PutOutcome::ConditionFailed => Err(AuthErrorView::Client("Profile already exists for this user"@)),
        PutOutcome::Failed(d) => Err(AuthErrorView::Internal("Database error while creating profile: "@ + d@)),
    }
}

/// Answers a profile creation: done once stored; a client error when the
/// user already has a profile; an internal error with the database's
/// description otherwise.
pub fn profile_registration_result(outcome: PutOutcome) -> (r: Result<(), AuthError>)
    ensures
        match r {
            Ok(()) => profile_registration_outcome(outcome) == Ok::<(), AuthErrorView>(()),
            Err(e) => profile_registration_outcome(outcome) == Err::<(), AuthErrorView>(e@),
        },
        outcome is Stored ==> r is Ok,
        outcome is ConditionFailed ==> (r matches Err(e) && e@ == AuthErrorView::Client(
            "Profile already exists for this user"@,
        )),
        outcome matches PutOutcome::Failed(d) ==> (r matches Err(e) && e@ == AuthErrorView::Internal(
            "Database error while creating profile: "@ + d@,
        )),
{
    match outcome {
        PutOutcome::Stored => Ok(()),
        PutOutcome::ConditionFailed => Err(AuthError::Client("Profile already exists for this user".to_owned())),
        PutOutcome::Failed(d) => Err(internal_with_detail("Database error while creating profile: ", d.as_str())),
    }
}

// ---------------------------------------------------------------------------
// Laws

/// Logging in against the credentials record that a registration wrote
/// gives back the registered user id for the registered password, and for
/// any other password exactly when its salted hash is the same; every other
/// attempt is refused as an incorrect password.
pub proof fn lemma_login_after_registration(
    item: Item,
    username: Seq<char>,
    password: Seq<char>,
    user_id: Seq<char>,
    salt: Seq<u8>,
    attempt: Seq<char>,
)
    requires
        auth_item_holds(item, username, password, user_id, salt),
    ensures
        credentials_outcome(password, Some(item)) == Ok::<Seq<char>, AuthErrorView>(user_id),
        credentials_outcome(attempt, Some(item)) == if password_hash(attempt, hex_upper(salt))
            == password_hash(password, hex_upper(salt)) {
            Ok::<Seq<char>, AuthErrorView>(user_id)
        } else {
            Err(AuthErrorView::Client("Incorrect password"@))
        },
{
}

/// The strings of a list of string values are their texts, in list order.
pub proof fn lemma_texts_of_strings(l: Seq<AttrValue>, texts: Seq<Seq<char>>)
    requires
        l.len() == texts.len(),
        forall|i: int| 0 <= i < l.len() ==> attr_text(#[trigger] l[i]) == Some(texts[i]),
    ensures
        texts_of(l) == texts,
    decreases l.len(),
{
    if l.len() > 0 {
        assert(attr_text(l[l.len() - 1]) == Some(texts[l.len() - 1]));
        assert forall|i: int| 0 <= i < l.drop_last().len() implies attr_text(#[trigger] l.drop_last()[i]) == Some(texts.drop_last()[i]) by {
            assert(l.drop_last()[i] == l[i]);
        }
        lemma_texts_of_strings(l.drop_last(), texts.drop_last());
        assert(texts =~= texts.drop_last().push(texts.last()));
    }
}

/// Reading back the profile record that a profile creation wrote, as the
/// user who owns it, gives the same profile.
pub proof fn lemma_profile_roundtrip(item: Item, p: UserProfileView)
    requires
        profile_item_holds(item, p),
    ensures
        profile_of_item(p.username, p.uuid, item) == p,
{
    let l = item.get_spec(attr_interests())->Some_0->L_0;
    lemma_texts_of_strings(l@, p.interests);
}

/// A user who registered with `username` and `password` (credentials record
/// `auth`) and then created the profile `p` under the id the registration
/// gave (profile record `prof`) logs in with that password: the credentials
/// check gives the user id, and the profile read back under that id is `p`.
pub proof fn lemma_login_returns_registered_profile(
    auth: Item,
    prof: Item,
    username: Seq<char>,
    password: Seq<char>,
    user_id: Seq<char>,
    salt: Seq<u8>,
    p: UserProfileView,
)
    requires
        auth_item_holds(auth, username, password, user_id, salt),
        profile_item_holds(prof, p),
        p.uuid == user_id,
        p.username == username,
    ensures
        credentials_outcome(password, Some(auth)) == Ok::<Seq<char>, AuthErrorView>(user_id),
        profile_of_item(username, user_id, prof) == p,
{
    lemma_login_after_registration(auth, username, password, user_id, salt, password);
    lemma_profile_roundtrip(prof, p);
}

/// A credentials record written by a registration holds each part under
/// its own attribute: the user name under `username`, the id under `uuid`,
/// the hex salt under `userSalt`, and under `password` the hex SHA-256 digest
/// of the salt text followed by the whole password.
pub proof fn lemma_auth_item_fields(
    item: Item,
    username: Seq<char>,
    password: Seq<char>,
    user_id: Seq<char>,
    salt: Seq<u8>,
)
    requires
        auth_item_holds(item, username, password, user_id, salt),
    ensures
        item.text_spec("username"@) == Some(username),
        item.text_spec("uuid"@) == Some(user_id),
        item.text_spec("userSalt"@) == Some(hex_upper(salt)),
        item.text_spec("password"@) == Some(hex_upper(sha256_digest(encode_utf8(hex_upper(salt) + password)))),
{
    lemma_password_hash_whole_input(password, password, hex_upper(salt));
}

/// Checking a password reads the salt from `userSalt` and the stored hash
/// from `password`, accepts exactly when the hex SHA-256 digest of the salt
/// followed by the whole password equals the stored hash, and then answers
/// the id stored under `uuid`.
pub proof fn lemma_credentials_check(password: Seq<char>, item: Item, salt: Seq<char>, stored: Seq<char>, id: Seq<char>)
    requires
        item.text_spec("userSalt"@) == Some(salt),
        item.text_spec("password"@) == Some(stored),
        item.text_spec("uuid"@) == Some(id),
    ensures
        credentials_outcome(password, None) == Err::<Seq<char>, AuthErrorView>(AuthErrorView::Client("User not found"@)),
        credentials_outcome(password, Some(item)) == if hex_upper(sha256_digest(encode_utf8(salt + password))) == stored {
            Ok::<Seq<char>, AuthErrorView>(id)
        } else {
            Err(AuthErrorView::Client("Incorrect password"@))
        },
{
    lemma_password_hash_whole_input(password, password, salt);
}

/// After a registration, a login attempt succeeds exactly when the SHA-256
/// digest of the salt text followed by the attempted password equals that of
/// the salt text followed by the registered password; otherwise it is refused
/// as an incorrect password.
pub proof fn lemma_login_needs_same_salted_digest(
    item: Item,
    username: Seq<char>,
    password: Seq<char>,
    user_id: Seq<char>,
    salt: Seq<u8>,
    attempt: Seq<char>,
)
    requires
        auth_item_holds(item, username, password, user_id, salt),
    ensures
        credentials_outcome(attempt, Some(item)) == if sha256_digest(encode_utf8(hex_upper(salt) + attempt))
            == sha256_digest(encode_utf8(hex_upper(salt) + password)) {
            Ok::<Seq<char>, AuthErrorView>(user_id)
        } else {
            Err(AuthErrorView::Client("Incorrect password"@))
        },
{
    lemma_auth_item_fields(item, username, password, user_id, salt);
    lemma_credentials_check(attempt, item, hex_upper(salt), password_hash(password, hex_upper(salt)), user_id);
    lemma_password_hash_whole_input(attempt, password, hex_upper(salt));
}

/// A profile record written by a profile creation holds each field under its
/// own attribute name.
pub proof fn lemma_profile_item_fields(item: Item, p: UserProfileView)
    requires
        profile_item_holds(item, p),
    ensures
        item.text_spec("uuid"@) == Some(p.uuid),
        item.text_spec("username"@) == Some(p.username),
        item.text_spec("name"@) == Some(p.name),
        item.text_spec("gender"@) == Some(p.gender),
        item.text_spec("dob"@) == Some(iso_date_text(p.dob.0 as int, p.dob.1 as int, p.dob.2 as int)),
        item.text_spec("star_sign"@) == Some(p.star_sign),
        item.get_spec("interests"@) matches Some(AttrValue::L(l)) && texts_of(l@) == p.interests,
{
    let l = item.get_spec(attr_interests())->Some_0->L_0;
    lemma_texts_of_strings(l@, p.interests);
}

/// Reading a profile record takes each field from its own attribute name:
/// missing texts read as empty, a `dob` that does not parse reads as the
/// first of January 1970, and the interests are the strings of the
/// `interests` list.
pub proof fn lemma_profile_of_item_fields(username: Seq<char>, uuid: Seq<char>, item: Item)
    ensures
        profile_of_item(username, uuid, item).uuid == uuid,
        profile_of_item(username, uuid, item).username == username,
        profile_of_item(username, uuid, item).name == match item.text_spec("name"@) {
            Some(t) => t,
            None => Seq::<char>::empty(),
        },
        profile_of_item(username, uuid, item).gender == match item.text_spec("gender"@) {
            Some(t) => t,
            None => Seq::<char>::empty(),
        },
        profile_of_item(username, uuid, item).star_sign == match item.text_spec("star_sign"@) {
            Some(t) => t,
            None => Seq::<char>::empty(),
        },
        profile_of_item(username, uuid, item).dob == match chrono_parse_ymd(
            match item.text_spec("dob"@) {
                Some(t) => t,
                None => Seq::<char>::empty(),
            },
        ) {
            Some(d) => d,
            None => (1970i32, 1u32, 1u32),
        },
        profile_of_item(username, uuid, item).interests == match item.get_spec("interests"@) {
            Some(AttrValue::L(l)) => texts_of(l@),
            _ => Seq::<Seq<char>>::empty(),
        },
{
}

} // verus!
