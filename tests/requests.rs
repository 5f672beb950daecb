use etcd_session::error::EtcdError;
use etcd_session::session::EtcdClient;
use etcd_session::text::{bytes_text, text_bytes};

#[test]
fn endpoint_accepts_a_plain_address() {
    assert!(EtcdClient::<()>::endpoint("http://127.0.0.1:2379".to_string()).is_ok());
}

#[test]
fn endpoint_rejects_a_malformed_address() {
    let r = EtcdClient::<()>::endpoint("http://[::1".to_string());
    assert!(matches!(r, Err(EtcdError::Connection)));
}

#[test]
fn text_is_sent_as_utf8() {
    assert_eq!(text_bytes("foo"), b"foo".to_vec());
    assert_eq!(text_bytes("é"), vec![0xc3, 0xa9]);
    assert_eq!(text_bytes(""), Vec::<u8>::new());
}

#[test]
fn bytes_read_back_as_text() {
    assert_eq!(bytes_text(&[0x62, 0x61, 0x72]), Some("bar".to_string()));
    assert_eq!(bytes_text(&[0xc3, 0xa9]), Some("é".to_string()));
    assert_eq!(bytes_text(&[0xff, 0x00]), None);
    assert_eq!(bytes_text(&[0xc3]), None);
}

#[test]
fn put_writes_the_start_key_and_asks_for_the_old_value() {
    let client = EtcdClient::new(());
    let range = client.range("foo", None);
    let req = range.put_request("bar");
    assert_eq!(req.key, b"foo".to_vec());
    assert_eq!(req.value, b"bar".to_vec());
    assert!(req.prev_kv);
}

#[test]
fn get_without_end_key_sends_empty_range_end() {
    let client = EtcdClient::new(());
    let range = client.range("foo", None);
    let req = range.get_request();
    assert_eq!(req.key, b"foo".to_vec());
    assert!(req.range_end.is_empty());
}

#[test]
fn get_with_end_key_sends_half_open_interval() {
    let client = EtcdClient::new(());
    let range = client.range("a", Some("c"));
    let req = range.get_request();
    assert_eq!(req.key, b"a".to_vec());
    assert_eq!(req.range_end, b"c".to_vec());
}

#[test]
fn delete_covers_the_same_scope_as_get() {
    let client = EtcdClient::new(());
    let req = client.range("foo", Some("fop")).delete_request();
    assert_eq!(req.key, b"foo".to_vec());
    assert_eq!(req.range_end, b"fop".to_vec());
    let req = client.range("foo", None).delete_request();
    assert_eq!(req.key, b"foo".to_vec());
    assert!(req.range_end.is_empty());
}

#[test]
fn handles_borrow_the_session_without_consuming_it() {
    let client = EtcdClient::new(7u32);
    let a = client.range("a", None);
    let b = client.range("b", None);
    let c = client.cluster();
    assert_eq!(*a.client().shared_channel(), 7);
    assert_eq!(*c.client().shared_channel(), 7);
    assert_eq!(a.put_request("1").key, b"a".to_vec());
    assert_eq!(b.get_request().key, b"b".to_vec());
}

#[test]
fn error_descriptions() {
    assert_eq!(EtcdError::Connection.describe(), "connection error");
    assert_eq!(EtcdError::Request.describe(), "request error");
    assert_eq!(EtcdError::Decode.describe(), "decode error");
    assert_eq!(EtcdError::Stream.describe(), "stream error");
}
