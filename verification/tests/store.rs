use jars::store::{open_counter_store, StoreError};

#[test]
fn redis_uri_is_accepted() {
    assert!(open_counter_store(String::from("redis://127.0.0.1/")).is_ok());
    assert!(open_counter_store(String::from("redis://user:pw@example.com:6380/2")).is_ok());
}

#[test]
fn bad_redis_uri_is_refused() {
    assert!(matches!(open_counter_store(String::new()), Err(StoreError::InvalidUri(_))));
    assert!(matches!(
        open_counter_store(String::from("http://127.0.0.1/")),
        Err(StoreError::InvalidUri(_))
    ));
    assert!(matches!(
        open_counter_store(String::from("not a url")),
        Err(StoreError::InvalidUri(_))
    ));
}
