use canteen_api::startup::{check_env, EnvError};
use canteen_api::v1::model::canteen::Canteen;
use canteen_api::v1::model::user::{Relation, User, AUTH_TOKEN_TTL_SECS};
use canteen_api::v1::{ApiError, StatusCode};

#[test]
fn api_error_constructors() {
    let e = ApiError::new(StatusCode::Forbidden, "no".to_string());
    assert_eq!((e.status, e.desc.as_str(), e.details), (StatusCode::Forbidden, "no", None));
    let e = ApiError::detailed(StatusCode::NotFound, "a".to_string(), "b".to_string());
    assert_eq!(e.details, Some("b".to_string()));
    let e = ApiError::query_failed("connection reset".to_string());
    assert_eq!(e.status.code(), 500);
    assert_eq!(e.desc, "Query failed!");
    assert_eq!(e.details, Some("connection reset".to_string()));
}

#[test]
fn status_codes() {
    assert_eq!(StatusCode::BadRequest.code(), 400);
    assert_eq!(StatusCode::Forbidden.code(), 403);
    assert_eq!(StatusCode::NotFound.code(), 404);
    assert_eq!(StatusCode::InternalServerError.code(), 500);
}

#[test]
fn relation_from_sql_text() {
    assert_eq!(Relation::from_sql_text("fav"), Some(Relation::Fav));
    assert_eq!(Relation::from_sql_text("contact"), Some(Relation::Contact));
    assert_eq!(Relation::from_sql_text("blocked"), Some(Relation::Blocked));
    assert_eq!(Relation::from_sql_text("Fav"), None);
    assert_eq!(Relation::from_sql_text(""), None);
}

#[test]
fn user_get_by_id_found() {
    let u = User::get_by_id(3, Ok(vec![(3, "carol".to_string()), (4, "dave".to_string())])).ok().unwrap();
    assert_eq!((u.id, u.username.as_str(), u.relation), (3, "carol", None));
}

#[test]
fn user_get_by_id_not_found() {
    let e = User::get_by_id(-12, Ok(vec![])).err().unwrap();
    assert_eq!(e.status, StatusCode::NotFound);
    assert_eq!(e.desc, "No user found with id '-12'");
}

#[test]
fn user_get_by_id_query_failed() {
    let e = User::get_by_id(1, Err("boom".to_string())).err().unwrap();
    assert_eq!(e.status, StatusCode::InternalServerError);
    assert_eq!(e.desc, "Query failed!");
    assert_eq!(e.details, Some("boom".to_string()));
}

#[test]
fn user_contacts_keep_rows_in_order() {
    let rows = vec![
        (5, "eve".to_string(), Relation::Blocked),
        (2, "bob".to_string(), Relation::Fav),
    ];
    let us = User::contacts(Ok(rows)).ok().unwrap();
    assert_eq!(us.len(), 2);
    assert_eq!((us[0].id, us[0].username.as_str(), us[0].relation), (5, "eve", Some(Relation::Blocked)));
    assert_eq!((us[1].id, us[1].username.as_str(), us[1].relation), (2, "bob", Some(Relation::Fav)));
    assert!(User::contacts(Ok(vec![])).ok().unwrap().is_empty());
    assert_eq!(User::contacts(Err("x".to_string())).err().unwrap().desc, "Query failed!");
}

#[test]
fn login_at_valid_key_issues_token() {
    let r = User::login_at("alice".to_string(), Ok(vec![(9, true)]), 1_000).ok().unwrap();
    assert_eq!(r.auth_token, "Cake");
    assert_eq!(r.valid_until, 1_000 + AUTH_TOKEN_TTL_SECS);
    assert_eq!(r.valid_until, 1_010);
    assert_eq!((r.me.id, r.me.username.as_str(), r.me.relation), (9, "alice", None));
}

#[test]
fn login_at_invalid_key_is_forbidden() {
    let e = User::login_at("alice".to_string(), Ok(vec![(9, false)]), 1_000).err().unwrap();
    assert_eq!(e.status, StatusCode::Forbidden);
    assert_eq!(e.desc, "Invalid auth_key!");
}

#[test]
fn login_at_unknown_user() {
    let e = User::login_at("zed".to_string(), Ok(vec![]), 0).err().unwrap();
    assert_eq!(e.status, StatusCode::NotFound);
    assert_eq!(e.desc, "No user found with username 'zed'");
    let e = User::login_at("zed".to_string(), Err("down".to_string()), 0).err().unwrap();
    assert_eq!(e.status, StatusCode::InternalServerError);
}

#[test]
fn login_reads_the_clock_for_tokens() {
    let before = std::time::SystemTime::now().duration_since(std::time::UNIX_EPOCH).unwrap().as_secs() as i64;
    let r = User::login("alice".to_string(), Ok(vec![(9, true)])).unwrap().ok().unwrap();
    let after = std::time::SystemTime::now().duration_since(std::time::UNIX_EPOCH).unwrap().as_secs() as i64;
    assert!(before + AUTH_TOKEN_TTL_SECS <= r.valid_until && r.valid_until <= after + AUTH_TOKEN_TTL_SECS);
    let e = User::login("alice".to_string(), Ok(vec![(9, false)])).unwrap().err().unwrap();
    assert_eq!(e.status, StatusCode::Forbidden);
}

fn canteen(id: i32, distance: Option<f64>) -> Canteen<(f64, f64), f64> {
    Canteen {
        id,
        name: format!("Mensa {}", id),
        city_id: 1,
        city_name: "Dortmund".to_string(),
        location: (51.49, 7.41),
        distance,
    }
}

#[test]
fn canteen_get_by_id() {
    let c = Canteen::get_by_id(4, Ok(vec![canteen(4, Some(2.5)), canteen(5, None)])).ok().unwrap();
    assert_eq!((c.id, c.name.as_str(), c.city_id, c.city_name.as_str()), (4, "Mensa 4", 1, "Dortmund"));
    assert_eq!(c.location, (51.49, 7.41));
    assert_eq!(c.distance, None);
    let e = Canteen::<(f64, f64), f64>::get_by_id(2147483647, Ok(vec![])).err().unwrap();
    assert_eq!(e.status, StatusCode::NotFound);
    assert_eq!(e.desc, "No canteen found with id '2147483647'");
    let e = Canteen::<(f64, f64), f64>::get_by_id(1, Err("bad".to_string())).err().unwrap();
    assert_eq!(e.details, Some("bad".to_string()));
}

#[test]
fn canteen_get_nearest_keeps_rows() {
    let v = Canteen::get_nearest(Ok(vec![canteen(1, Some(0.5)), canteen(2, Some(1.5))])).ok().unwrap();
    assert_eq!(v.iter().map(|c| c.id).collect::<Vec<_>>(), vec![1, 2]);
    assert_eq!(v[1].distance, Some(1.5));
    assert_eq!(Canteen::<(f64, f64), f64>::get_nearest(Err("e".to_string())).err().unwrap().status, StatusCode::InternalServerError);
}

#[test]
fn check_env_cases() {
    assert_eq!(check_env(None, Some("db".to_string())).err(), Some(EnvError::PortNotSet));
    assert_eq!(check_env(Some("80a".to_string()), Some("db".to_string())).err(), Some(EnvError::PortNotInteger));
    assert_eq!(check_env(Some("70000".to_string()), None).err(), Some(EnvError::PortNotInteger));
    assert_eq!(check_env(Some("8080".to_string()), None).err(), Some(EnvError::DatabaseUrlNotSet));
    assert_eq!(check_env(Some("8080".to_string()), Some("postgres://x".to_string())).ok(), Some((8080, "postgres://x".to_string())));
}

#[test]
fn env_error_messages() {
    assert_eq!(EnvError::PortNotSet.message(), "Environment variable 'PORT' is not set!");
    assert_eq!(EnvError::PortNotInteger.message(), "Environment variable 'PORT' is not an integer!");
    assert_eq!(EnvError::DatabaseUrlNotSet.message(), "Environment variable 'DATABASE_URL' is not set!");
}

#[test]
fn login_with_clock_answers_for_every_reading() {
    let r = User::login_with_clock("alice".to_string(), Ok(vec![(9, true)]), 100).unwrap().ok().unwrap();
    assert_eq!((r.auth_token.as_str(), r.valid_until, r.me.id), ("Cake", 110, 9));
    assert!(User::login_with_clock("alice".to_string(), Ok(vec![(9, true)]), i64::MAX).is_none());
    let r = User::login_with_clock("alice".to_string(), Ok(vec![(9, true)]), i64::MAX - 10).unwrap().ok().unwrap();
    assert_eq!(r.valid_until, i64::MAX);
    let e = User::login_with_clock("alice".to_string(), Ok(vec![(9, false)]), i64::MAX).unwrap().err().unwrap();
    assert_eq!(e.status, StatusCode::Forbidden);
    let e = User::login_with_clock("nobody".to_string(), Ok(vec![]), -5).unwrap().err().unwrap();
    assert_eq!(e.status, StatusCode::NotFound);
}
