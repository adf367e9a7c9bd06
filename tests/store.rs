use actix_ratelimit::headers::{decimal_bytes, LIMIT_HEADER, REMAINING_HEADER, RESET_HEADER};
use actix_ratelimit::limiter::RateLimitHeaders;
use actix_ratelimit::memory::MemoryStore;
use actix_ratelimit::store::{handle, Consumed, Messages, Responses, WindowStore};

fn s(k: &str) -> String {
    k.to_string()
}

#[test]
fn empty_store_answers_nothing() {
    let mut st = MemoryStore::new();
    assert_eq!(st.query(&s("a"), 0), Ok(None));
    assert_eq!(st.time_to_live(&s("a"), 0), Ok(None));
    assert_eq!(st.try_consume(&s("a"), 0), Ok(Consumed::NotFound));
    assert_eq!(st.remove(&s("a")), Ok(0));
}

#[test]
fn consume_takes_one_until_exhausted() {
    let mut st = MemoryStore::new();
    st.create(&s("a"), 2, 100).unwrap();
    assert_eq!(st.query(&s("a"), 10), Ok(Some(2)));
    assert_eq!(st.try_consume(&s("a"), 10), Ok(Consumed::Admitted(2)));
    assert_eq!(st.try_consume(&s("a"), 11), Ok(Consumed::Admitted(1)));
    assert_eq!(st.try_consume(&s("a"), 12), Ok(Consumed::Exhausted));
    assert_eq!(st.query(&s("a"), 12), Ok(Some(0)));
    assert_eq!(st.time_to_live(&s("a"), 40), Ok(Some(60)));
}

#[test]
fn expired_entry_is_not_live() {
    let mut st = MemoryStore::new();
    st.create(&s("a"), 5, 100).unwrap();
    assert_eq!(st.query(&s("a"), 100), Ok(None));
    assert_eq!(st.time_to_live(&s("a"), 100), Ok(None));
    assert_eq!(st.try_consume(&s("a"), 150), Ok(Consumed::NotFound));
    st.create(&s("a"), 3, 300).unwrap();
    assert_eq!(st.query(&s("a"), 150), Ok(Some(3)));
}

#[test]
fn keys_are_independent() {
    let mut st = MemoryStore::new();
    st.create(&s("a"), 1, 100).unwrap();
    st.create(&s("b"), 7, 200).unwrap();
    assert_eq!(st.try_consume(&s("a"), 0), Ok(Consumed::Admitted(1)));
    assert_eq!(st.query(&s("b"), 0), Ok(Some(7)));
    assert_eq!(st.remove(&s("b")), Ok(7));
    assert_eq!(st.query(&s("b"), 0), Ok(None));
    assert_eq!(st.query(&s("a"), 0), Ok(Some(0)));
}

#[test]
fn messages_are_served_in_turn() {
    let mut st = MemoryStore::new();
    let create = Messages::Create { key: s("k"), value: 1, expiry: 50 };
    assert_eq!(handle(&mut st, create, 0), Ok(Responses::Create));
    assert_eq!(handle(&mut st, Messages::Get(s("k")), 0), Ok(Responses::Get(Some(1))));
    assert_eq!(
        handle(&mut st, Messages::Consume(s("k")), 0),
        Ok(Responses::Consume(Consumed::Admitted(1)))
    );
    assert_eq!(
        handle(&mut st, Messages::Consume(s("k")), 0),
        Ok(Responses::Consume(Consumed::Exhausted))
    );
    assert_eq!(handle(&mut st, Messages::Expire(s("k")), 20), Ok(Responses::Expire(Some(30))));
    assert_eq!(handle(&mut st, Messages::Remove(s("k")), 20), Ok(Responses::Remove(0)));
    assert_eq!(handle(&mut st, Messages::Get(s("k")), 20), Ok(Responses::Get(None)));
}

#[test]
fn decimal_digits() {
    assert_eq!(decimal_bytes(0), b"0".to_vec());
    assert_eq!(decimal_bytes(7), b"7".to_vec());
    assert_eq!(decimal_bytes(10), b"10".to_vec());
    assert_eq!(decimal_bytes(1234567890), b"1234567890".to_vec());
    assert_eq!(decimal_bytes(u64::MAX), u64::MAX.to_string().into_bytes());
}

#[test]
fn header_fields_in_order() {
    let h = RateLimitHeaders { limit: 100, remaining: 0, reset: 42 };
    let f = h.fields();
    assert_eq!(f.len(), 3);
    assert_eq!(f[0], (LIMIT_HEADER, b"100".to_vec()));
    assert_eq!(f[1], (REMAINING_HEADER, b"0".to_vec()));
    assert_eq!(f[2], (RESET_HEADER, b"42".to_vec()));
    assert_eq!(RESET_HEADER, "x-ratelimit-reset");
}
