use financial_managment::models::{
    Account, Database, NewAccount, NewTransaction, NewUser, Transaction, User,
};
use financial_managment::result_variant::DatabaseResult;

fn with_user(db: &mut Database, username: &str) {
    let owner = NewUser {
        name: String::from("Owner"),
        username: String::from(username),
        password: String::from("pw"),
        api_token: format!("token-of-{}", username),
    };
    User::add(db, &owner).unwrap();
}

#[test]
fn models_user_create() {
    let mut conn = Database::new();

    let new_user = NewUser::default();
    let NewUser {
        username,
        password,
        name,
        ..
    } = &new_user;

    // makes sure the user doesn't exits
    User::delete_by_username(&mut conn, username);

    let query_result = User::add(&mut conn, &new_user).unwrap();

    let should_match = User::new(username, password, name);

    assert_eq!(query_result, should_match);

    // cleans up inserted row
    User::delete_by_username(&mut conn, username);
}

#[test]
fn models_user_delete() {
    let mut conn = Database::new();

    let new_user = NewUser::default();
    let username = &new_user.username;

    // adds the user before the deleting
    User::add(&mut conn, &new_user);

    if let DatabaseResult::NotFound = User::delete_by_username(&mut conn, username) {
        panic!("Error while deleting user, User doesn't exits!!!")
    }
}

#[test]
fn models_user_get() {
    let mut conn = Database::new();

    let new_user = NewUser::default();
    let NewUser {
        username,
        password,
        name,
        ..
    } = &new_user;

    User::delete_by_username(&mut conn, username);
    User::add(&mut conn, &new_user);
    let query_result = User::get(&conn, username).unwrap();

    let should_match = User::new(username, password, name);

    assert_eq!(should_match, query_result);
    // cleans up the added user
    User::delete_by_username(&mut conn, username);
}

#[test]
fn models_account_create() {
    let mut conn = Database::new();
    with_user(&mut conn, "BerserkerMother");

    let new_account = NewAccount::default();
    let NewAccount {
        balance,
        user_id,
        name,
    } = &new_account;

    let query_result = Account::add(&mut conn, &new_account).unwrap();

    let should_match = Account::new(balance, user_id, query_result.id, name);

    assert_eq!(query_result, should_match);

    // cleans up inserted row
    Account::delete_by_id(&mut conn, query_result.id);
}

#[test]
fn models_account_delete() {
    let mut conn = Database::new();
    with_user(&mut conn, "BerserkerMother");

    let new_account = NewAccount::default();
    let NewAccount { user_id, name, .. } = &new_account;
    Account::add(&mut conn, &new_account);

    match Account::delete_by_name_user(&mut conn, name, user_id) {
        DatabaseResult::Succeful(_) => {}
        _ => panic!("Test failed, no data was deleted!"),
    }
}

#[test]
fn models_account_get() {
    let mut conn = Database::new();
    with_user(&mut conn, "BerserkerMother");

    let new_account = NewAccount::default();
    let NewAccount {
        name,
        balance,
        user_id,
    } = &new_account;

    let added = Account::add(&mut conn, &new_account).unwrap();

    let query_result = Account::get(&conn, added.id).unwrap();

    let should_match = Account::new(balance, user_id, query_result.id, name);

    assert_eq!(query_result, should_match);

    // cleans up added data
    Account::delete_by_name_user(&mut conn, name, user_id);
}

#[test]
fn account_account_create() {
    let mut conn = Database::new();
    with_user(&mut conn, "BerserkerMother");

    let new_account = NewAccount::default();
    let NewAccount {
        balance,
        user_id,
        name,
    } = &new_account;

    let query_result = Account::add(&mut conn, &new_account).unwrap();

    let should_match = Account::new(balance, user_id, query_result.id, name);

    assert_eq!(query_result, should_match);

    // cleans up inserted row
    Account::delete_by_id(&mut conn, query_result.id);
}

#[test]
fn account_account_delete() {
    let mut conn = Database::new();
    with_user(&mut conn, "BerserkerMother");

    let new_account = NewAccount::default();
    let NewAccount { user_id, name, .. } = &new_account;
    Account::add(&mut conn, &new_account);

    Account::delete_by_name_user(&mut conn, name, user_id).unwrap();
}

#[test]
fn account_account_get() {
    let mut conn = Database::new();
    with_user(&mut conn, "BerserkerMother");

    let new_account = NewAccount::default();
    let NewAccount {
        name,
        balance,
        user_id,
    } = &new_account;

    let query_result = Account::add(&mut conn, &new_account).unwrap();

    let query_result = Account::get(&conn, query_result.id).unwrap();

    let should_match = Account::new(balance, user_id, query_result.id, name);

    assert_eq!(query_result, should_match);

    // cleans up added data
    Account::delete_by_name_user(&mut conn, name, user_id);
}

fn with_account_one(db: &mut Database) {
    with_user(db, "test_user");
    let account = Account::new_account(String::from("Checking"), String::from("test_user"));
    let added = Account::add(db, &account).unwrap();
    assert_eq!(added.id, 1);
}

#[test]
fn transaction_create() {
    let mut conn = Database::new();
    with_account_one(&mut conn);

    let new_trans = NewTransaction::default();
    let NewTransaction {
        kind,
        title,
        value,
        currency,
        time,
        user_id,
        bank_account,
    } = new_trans.clone();

    let query_result = Transaction::add(&mut conn, &new_trans).unwrap();

    let should_match = Transaction::new(
        kind,
        title,
        value,
        currency,
        time,
        user_id,
        query_result.id,
        bank_account,
    );

    assert_eq!(query_result, should_match);

    // cleans up inserted row
    Transaction::delete(&mut conn, query_result.id);
}

#[test]
fn transaction_get() {
    let mut conn = Database::new();
    with_account_one(&mut conn);

    let new_trans = NewTransaction::default();
    let NewTransaction {
        kind,
        title,
        value,
        currency,
        time,
        user_id,
        bank_account,
    } = new_trans.clone();

    let query_result = Transaction::add(&mut conn, &new_trans).unwrap();
    let query_result = Transaction::get(&conn, query_result.id).unwrap();

    let should_match = Transaction::new(
        kind,
        title,
        value,
        currency,
        time,
        user_id,
        query_result.id,
        bank_account,
    );

    assert_eq!(should_match, query_result);
    // cleans up the added user
    Transaction::delete(&mut conn, query_result.id);
}

#[test]
fn transaction_delete() {
    let mut conn = Database::new();
    with_account_one(&mut conn);

    let new_trans = NewTransaction::default();

    // adds the user before the deleting
    let query_res = Transaction::add(&mut conn, &new_trans).unwrap();

    Transaction::delete(&mut conn, query_res.id);
}

#[test]
fn user_user_create() {
    let mut conn = Database::new();

    let new_user = NewUser::default();
    let NewUser {
        username,
        password,
        name,
        ..
    } = &new_user;

    // makes sure the user doesn't exits
    User::delete_by_username(&mut conn, username);

    let query_result = User::add(&mut conn, &new_user).unwrap();

    let should_match = User::new(username, password, name);

    assert_eq!(query_result, should_match);

    // cleans up inserted row
    User::delete_by_username(&mut conn, username);
}

#[test]
fn user_user_delete() {
    let mut conn = Database::new();

    let new_user = NewUser::default();
    let username = &new_user.username;

    // adds the user before the deleting
    User::add(&mut conn, &new_user);

    User::delete_by_username(&mut conn, username);
}

#[test]
fn user_user_get() {
    let mut conn = Database::new();

    let new_user = NewUser::default();
    let NewUser {
        username,
        password,
        name,
        ..
    } = &new_user;

    User::delete_by_username(&mut conn, username);
    User::add(&mut conn, &new_user);
    let query_result = User::get(&conn, username).unwrap();

    let should_match = User::new(username, password, name);

    assert_eq!(should_match, query_result);
    // cleans up the added user
    User::delete_by_username(&mut conn, username);
}

#[test]
fn user_update() {
    let mut conn = Database::new();

    let new_user = NewUser::default();
    User::delete_by_username(&mut conn, &new_user.username);
    if let DatabaseResult::Succeful(mut user) = User::add(&mut conn, &new_user) {
        user.name = String::from("Changed");
        println!("{:?}", user);
        let _updated = match User::update(&mut conn, &user) {
            DatabaseResult::Succeful(user) => user,
            _ => panic!("WTF"),
        };
    }
    let query_result = User::get(&conn, &new_user.username).unwrap().name;

    let should_match = String::from("Changed");

    assert_eq!(should_match, query_result);
}
