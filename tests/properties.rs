use financial_managment::api::account::{create_account, get_all_accounts, AccountData};
use financial_managment::api::transaction::{
    create_transaction, delete_account_all_transactions, get_account_all_transactions,
    TransactionData,
};
use financial_managment::api::user::{create_user, super_update_user, update_user, UserData};
use financial_managment::authentication::gaurd::{bearer_token, authenticate};
use financial_managment::authentication::hasher::to_hex;
use financial_managment::authentication::{random_token, AdminGaurd, GaurdError, Outcome, UserGaurd};
use financial_managment::calendar::today;
use financial_managment::models::{
    Account, CurrencyType, Database, NewAccount, NewTransaction, NewUser, Transaction, User,
};
use financial_managment::result_variant::DatabaseResult;
use financial_managment::routes::{login, stage, to_loging, Access, Credential, Method};

fn digest(s: &str) -> String {
    financial_managment::authentication::hasher::Hash::hash(String::from(s))
}

fn sign_up(db: &mut Database, name: &str, username: &str, password: &str) -> User {
    create_user(
        UserData {
            name: String::from(name),
            username: String::from(username),
            password: String::from(password),
        },
        db,
    )
    .unwrap()
}

fn bearer(token: &str) -> Vec<String> {
    vec![format!("Bearer {}", token)]
}

#[test]
fn digest_of_known_inputs() {
    assert_eq!(
        digest("abc"),
        "ba7816bf8f01cfea414140de5dae2223b00361a396177a9cb410ff61f20015ad"
    );
    assert_eq!(
        digest(""),
        "e3b0c44298fc1c149afbf4c8996fb92427ae41e4649b934ca495991b7852b855"
    );
    assert_eq!(digest("huh").len(), 64);
}

#[test]
fn hex_of_bytes() {
    assert_eq!(to_hex(&[0x00, 0x0f, 0xa5, 0xff]), "000fa5ff");
    assert_eq!(to_hex(&[]), "");
}

#[test]
fn token_shape() {
    let a = random_token();
    let b = random_token();
    assert_eq!(a.chars().count(), 30);
    assert!(a.chars().all(|c| c.is_ascii_alphanumeric()));
    assert_ne!(a, b);
}

#[test]
fn today_is_a_calendar_date() {
    let d = today();
    assert!(1 <= d.month && d.month <= 12);
    assert!(1 <= d.day && d.day <= 31);
    assert!(d.year >= 2000);
}

#[test]
fn sign_up_stores_digest() {
    let mut db = Database::new();
    let created = sign_up(&mut db, "Kimia", "k1", "huh");
    assert_eq!(created.username, "k1");
    assert_eq!(created.name, "Kimia");
    assert!(!created.role);
    let stored = User::get(&db, "k1").unwrap();
    assert_eq!(stored.password, digest("huh"));
    assert_ne!(stored.password, "huh");
    assert_eq!(stored, created);
}

#[test]
fn duplicate_username_is_refused() {
    let mut db = Database::new();
    sign_up(&mut db, "Kimia", "k1", "huh");
    let second = NewUser::new(String::from("Other"), String::from("k1"), digest("x"));
    assert_eq!(User::add(&mut db, &second), DatabaseResult::AlreadyExists);
    assert!(create_user(
        UserData {
            name: String::from("Other"),
            username: String::from("k1"),
            password: String::from("x"),
        },
        &mut db,
    )
    .is_none());
}

#[test]
fn duplicate_token_is_refused() {
    let mut db = Database::new();
    User::add(&mut db, &NewUser::default()).unwrap();
    let mut other = NewUser::default();
    other.username = String::from("someone_else");
    assert_eq!(User::add(&mut db, &other), DatabaseResult::AlreadyExists);
}

#[test]
fn lookups_are_case_sensitive() {
    let mut db = Database::new();
    sign_up(&mut db, "Kimia", "k1", "huh");
    assert_eq!(User::get(&db, "K1"), DatabaseResult::NotFound);
}

#[test]
fn token_follows_the_latest_login() {
    let mut db = Database::new();
    let created = sign_up(&mut db, "Kimia", "k1", "huh");
    assert_eq!(User::get_by_token(&db, &created.api_token).unwrap().username, "k1");

    let credential = Credential {
        username: String::from("k1"),
        password: String::from("huh"),
    };
    let first = login(credential.clone(), &mut db).unwrap();
    assert_ne!(first.api_token, created.api_token);
    assert_eq!(User::get_by_token(&db, &first.api_token).unwrap(), first);
    assert_eq!(User::get_by_token(&db, &created.api_token), DatabaseResult::NotFound);

    let second = login(credential, &mut db).unwrap();
    assert_ne!(second.api_token, first.api_token);
    assert_eq!(User::get_by_token(&db, &second.api_token).unwrap(), second);
    assert_eq!(User::get_by_token(&db, &first.api_token), DatabaseResult::NotFound);
}

#[test]
fn login_with_bad_credentials() {
    let mut db = Database::new();
    let created = sign_up(&mut db, "Kimia", "k1", "huh");
    let wrong = Credential {
        username: String::from("k1"),
        password: String::from("nope"),
    };
    assert!(login(wrong, &mut db).is_none());
    let unknown = Credential {
        username: String::from("k2"),
        password: String::from("huh"),
    };
    assert!(login(unknown, &mut db).is_none());
    assert_eq!(User::get(&db, "k1").unwrap().api_token, created.api_token);
}

#[test]
fn delete_user_exactly_once() {
    let mut db = Database::new();
    assert_eq!(User::delete_by_username(&mut db, "ghost"), DatabaseResult::NotFound);
    let created = sign_up(&mut db, "Kimia", "k1", "huh");
    assert_eq!(User::delete_by_username(&mut db, "k1").unwrap(), created);
    assert_eq!(User::get(&db, "k1"), DatabaseResult::NotFound);
    assert_eq!(User::delete_by_username(&mut db, "k1"), DatabaseResult::NotFound);
}

#[test]
fn update_rehashes_password_and_needs_an_existing_user() {
    let mut db = Database::new();
    let mut user = sign_up(&mut db, "Kimia", "k1", "huh");
    user.password = String::from("new secret");
    let updated = User::update(&mut db, &user).unwrap();
    assert_eq!(updated.password, digest("new secret"));
    assert_eq!(User::get(&db, "k1").unwrap().password, digest("new secret"));

    let mut missing = user.clone();
    missing.username = String::from("nobody");
    assert_eq!(User::update(&mut db, &missing), DatabaseResult::NotFound);
}

#[test]
fn self_update_refuses_another_user() {
    let mut db = Database::new();
    let mut victim = sign_up(&mut db, "A", "a", "pw");
    sign_up(&mut db, "B", "b", "pw");
    victim.name = String::from("hacked");
    let caller = UserGaurd { username: String::from("b") };
    assert!(update_user(victim, caller, &mut db).is_none());
    assert_eq!(User::get(&db, "a").unwrap().name, "A");
}

#[test]
fn admin_update_needs_matching_username() {
    let mut db = Database::new();
    let mut target = sign_up(&mut db, "A", "a", "pw");
    target.name = String::from("renamed");
    let admin = AdminGaurd { username: String::from("root") };
    assert!(super_update_user(target.clone(), "b", admin, &mut db).is_none());
    let admin = AdminGaurd { username: String::from("root") };
    let updated = super_update_user(target, "a", admin, &mut db).unwrap();
    assert_eq!(updated.name, "renamed");
}

#[test]
fn account_balance_starts_at_zero() {
    let mut db = Database::new();
    sign_up(&mut db, "Kimia", "k1", "huh");
    let request = NewAccount {
        balance: String::from("1000000"),
        user_id: String::from("k1"),
        name: String::from("Savings"),
    };
    let account = Account::add(&mut db, &request).unwrap();
    assert_eq!(account.balance, "0");
    assert_eq!(account.id, 1);
    let second = Account::add(&mut db, &request).unwrap();
    assert_eq!(second.id, 2);
    assert_eq!(second.name, "Savings");
}

#[test]
fn account_needs_an_existing_owner() {
    let mut db = Database::new();
    let request = Account::new_account(String::from("Savings"), String::from("nobody"));
    assert_eq!(Account::add(&mut db, &request), DatabaseResult::NotFound);
}

#[test]
fn account_update_keeps_id() {
    let mut db = Database::new();
    sign_up(&mut db, "Kimia", "k1", "huh");
    let account = Account::add(&mut db, &Account::new_account(String::from("A"), String::from("k1"))).unwrap();
    let replacement = Account::new("42.5", "k1", 99, "B");
    let updated = Account::update(&mut db, account.id, &replacement).unwrap();
    assert_eq!(updated, Account::new("42.5", "k1", account.id, "B"));
    assert_eq!(Account::update(&mut db, 77, &replacement), DatabaseResult::NotFound);
    let orphan = Account::new("1", "nobody", 1, "C");
    assert_eq!(Account::update(&mut db, account.id, &orphan), DatabaseResult::NotFound);
}

#[test]
fn accounts_are_listed_per_owner() {
    let mut db = Database::new();
    sign_up(&mut db, "A", "a", "pw");
    sign_up(&mut db, "B", "b", "pw");
    Account::add(&mut db, &Account::new_account(String::from("x"), String::from("a"))).unwrap();
    Account::add(&mut db, &Account::new_account(String::from("y"), String::from("b"))).unwrap();
    Account::add(&mut db, &Account::new_account(String::from("x"), String::from("a"))).unwrap();
    let of_a = Account::all(&db, String::from("a")).unwrap();
    assert_eq!(of_a.len(), 2);
    assert!(of_a.iter().all(|acc| acc.user_id == "a"));
    let removed = Account::delete_by_name_user(&mut db, "x", "a").unwrap();
    assert_eq!(removed.id, 3);
    assert_eq!(Account::all(&db, String::from("a")).unwrap().len(), 0);
    assert_eq!(Account::all(&db, String::from("b")).unwrap().len(), 1);
    assert_eq!(Account::delete_by_id(&mut db, 1), DatabaseResult::NotFound);
}

fn transaction_for(account: i32, title: &str) -> NewTransaction {
    NewTransaction::new(
        false,
        Some(String::from(title)),
        String::from("12.00"),
        CurrencyType::EUR,
        String::from("k1"),
        account,
    )
}

#[test]
fn delete_all_for_account_removes_exactly_its_transactions() {
    let mut db = Database::new();
    sign_up(&mut db, "Kimia", "k1", "huh");
    let a = Account::add(&mut db, &Account::new_account(String::from("A"), String::from("k1"))).unwrap();
    let b = Account::add(&mut db, &Account::new_account(String::from("B"), String::from("k1"))).unwrap();
    let t1 = Transaction::add(&mut db, &transaction_for(a.id, "one")).unwrap();
    let t2 = Transaction::add(&mut db, &transaction_for(b.id, "two")).unwrap();
    let t3 = Transaction::add(&mut db, &transaction_for(a.id, "three")).unwrap();

    let removed = Transaction::delete_account(&mut db, a.id).unwrap();
    assert_eq!(removed, vec![t1.clone(), t3.clone()]);
    assert_eq!(Transaction::all(&db, a.id).unwrap(), vec![]);
    assert_eq!(Transaction::all(&db, b.id).unwrap(), vec![t2.clone()]);
    assert_eq!(Transaction::get(&db, t2.id).unwrap(), t2);
    assert_eq!(Transaction::get(&db, t1.id), DatabaseResult::NotFound);
    assert_eq!(Transaction::delete_account(&mut db, a.id).unwrap(), vec![]);
}

#[test]
fn transaction_needs_existing_account_and_user() {
    let mut db = Database::new();
    sign_up(&mut db, "Kimia", "k1", "huh");
    assert_eq!(Transaction::add(&mut db, &transaction_for(5, "x")), DatabaseResult::NotFound);
    let a = Account::add(&mut db, &Account::new_account(String::from("A"), String::from("k1"))).unwrap();
    let mut stranger = transaction_for(a.id, "x");
    stranger.user_id = String::from("nobody");
    assert_eq!(Transaction::add(&mut db, &stranger), DatabaseResult::NotFound);
    assert_eq!(Transaction::delete(&mut db, 1), DatabaseResult::NotFound);
}

#[test]
fn currency_labels_round_trip() {
    for c in [CurrencyType::USD, CurrencyType::IRR, CurrencyType::CAD, CurrencyType::EUR] {
        assert_eq!(CurrencyType::from_sql(&c.to_sql()), Some(c));
    }
    assert_eq!(CurrencyType::USD.to_sql(), b"USD".to_vec());
    assert_eq!(CurrencyType::EUR.to_sql(), b"EUR".to_vec());
    assert_eq!(CurrencyType::from_sql(b"Euro"), None);
    assert_eq!(CurrencyType::from_sql(b"usd"), None);
}

#[test]
fn bearer_header_parsing() {
    assert_eq!(bearer_token(&bearer("abc")), Some(String::from("abc")));
    assert_eq!(bearer_token(&vec![String::from("Bearer abc def")]), Some(String::from("abc")));
    assert_eq!(bearer_token(&vec![String::from("Bearer ")]), Some(String::from("")));
    assert_eq!(bearer_token(&vec![String::from("Bearer")]), None);
    assert_eq!(bearer_token(&vec![String::from("Basic abc")]), None);
    assert_eq!(bearer_token(&vec![String::from("bearer abc")]), None);
    assert_eq!(bearer_token(&vec![String::from("Bearerabc")]), None);
    assert_eq!(bearer_token(&vec![]), None);
    assert_eq!(bearer_token(&vec![String::from("Bearer a"), String::from("Bearer a")]), None);
}

#[test]
fn admin_guard_decisions() {
    let mut db = Database::new();
    let plain = sign_up(&mut db, "A", "a", "pw");
    let mut boss = sign_up(&mut db, "B", "b", "pw");
    boss.role = true;
    boss.password = String::from("pw");
    let boss = User::update(&mut db, &boss).unwrap();

    assert_eq!(
        AdminGaurd::from_request(&bearer(&plain.api_token), &db),
        Outcome::Failure(GaurdError::NotAdmin)
    );
    assert_eq!(
        AdminGaurd::from_request(&bearer(&boss.api_token), &db),
        Outcome::Success(AdminGaurd { username: String::from("b") })
    );
    assert_eq!(AdminGaurd::from_request(&bearer("unknown"), &db), Outcome::Forward);
    assert_eq!(
        AdminGaurd::from_request(&vec![plain.api_token.clone()], &db),
        Outcome::Forward
    );
    let twice = vec![
        format!("Bearer {}", boss.api_token),
        format!("Bearer {}", boss.api_token),
    ];
    assert_eq!(AdminGaurd::from_request(&twice, &db), Outcome::Forward);
}

#[test]
fn user_guard_decisions() {
    let mut db = Database::new();
    let plain = sign_up(&mut db, "A", "a", "pw");
    assert_eq!(
        UserGaurd::from_request(&bearer(&plain.api_token), &db),
        Outcome::Success(UserGaurd { username: String::from("a") })
    );
    assert_eq!(UserGaurd::from_request(&bearer("nope"), &db), Outcome::Forward);
    assert_eq!(UserGaurd::from_request(&vec![], &db), Outcome::Forward);
    assert_eq!(authenticate(&bearer(&plain.api_token), &db), Some(plain));
}

#[test]
fn end_to_end_sign_up_login_accounts() {
    let mut db = Database::new();
    let created = create_user(
        UserData {
            name: String::from("Kimia"),
            username: String::from("k1"),
            password: String::from("huh"),
        },
        &mut db,
    )
    .unwrap();
    assert_eq!(created.username, "k1");
    assert!(!created.api_token.is_empty());

    let logged_in = login(
        Credential {
            username: String::from("k1"),
            password: String::from("huh"),
        },
        &mut db,
    )
    .unwrap();
    assert_ne!(logged_in.api_token, created.api_token);

    let headers = bearer(&logged_in.api_token);
    let guard = match UserGaurd::from_request(&headers, &db) {
        Outcome::Success(g) => g,
        _ => panic!("token from login must authenticate"),
    };
    assert_eq!(get_all_accounts(UserGaurd { username: guard.username.clone() }, &db), Some(vec![]));

    let account = create_account(
        AccountData {
            name: String::from("Checking"),
            user_id: String::new(),
        },
        guard,
        &mut db,
    )
    .unwrap();
    assert_eq!(account.balance, "0");
    assert_eq!(account.user_id, "k1");
    assert_eq!(account.name, "Checking");

    let caller = UserGaurd { username: String::from("k1") };
    let t = create_transaction(
        TransactionData {
            kind: true,
            title: String::from("salary"),
            value: String::from("100"),
            currency: CurrencyType::USD,
            user_id: String::from("k1"),
            bank_account: account.id,
        },
        caller,
        &mut db,
    )
    .unwrap();
    assert_eq!(t.title, Some(String::from("salary")));
    let caller = UserGaurd { username: String::from("k1") };
    assert_eq!(get_account_all_transactions(account.id, caller, &db), Some(vec![t.clone()]));
    let caller = UserGaurd { username: String::from("k1") };
    assert_eq!(delete_account_all_transactions(account.id, caller, &mut db), Some(vec![t]));
}

#[test]
fn landing_redirect_and_route_tables() {
    let r = to_loging();
    assert_eq!(r.status, 302);
    assert_eq!(r.location, "/login");
    let landing = stage();
    assert_eq!(landing.len(), 3);
    assert_eq!(landing[2].method, Method::Post);
    assert_eq!(landing[2].path, "/login");
    let api = financial_managment::api::stage();
    assert_eq!(api.len(), 18);
    assert_eq!(api[0].path, "/users");
    assert_eq!(api[0].access, Access::Public);
    assert!(api.iter().filter(|r| r.access == Access::Admin).count() == 4);
}
