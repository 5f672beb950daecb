use etcd_session::error::EtcdError;
use etcd_session::key_values::KeyValues;
use etcd_session::session::EtcdClient;
use etcd_session::wire::KeyValue;

fn record(key: &[u8], value: &[u8]) -> KeyValue {
    KeyValue { key: key.to_vec(), value: value.to_vec() }
}

#[test]
fn single_record_reads_as_one_entry() {
    let m = KeyValues::from_records(&vec![record(b"foo", b"bar")]).unwrap();
    assert_eq!(m.get("foo"), Some(&"bar".to_string()));
    assert_eq!(m.get("bar"), None);
    assert!(!m.is_empty());
}

#[test]
fn empty_answer_is_an_empty_map() {
    let m = KeyValues::from_records(&vec![]).unwrap();
    assert!(m.is_empty());
    assert!(m.into_entries().is_empty());
}

#[test]
fn several_records_keep_every_key() {
    let m = KeyValues::from_records(&vec![
        record(b"a", b"1"),
        record(b"b", b"2"),
        record(b"c", b"3"),
    ])
    .unwrap();
    assert_eq!(m.get("a"), Some(&"1".to_string()));
    assert_eq!(m.get("b"), Some(&"2".to_string()));
    assert_eq!(m.get("c"), Some(&"3".to_string()));
    let mut entries = m.into_entries();
    entries.sort();
    assert_eq!(
        entries,
        vec![
            ("a".to_string(), "1".to_string()),
            ("b".to_string(), "2".to_string()),
            ("c".to_string(), "3".to_string()),
        ]
    );
}

#[test]
fn later_record_of_a_key_wins() {
    let m = KeyValues::from_records(&vec![record(b"k", b"old"), record(b"k", b"new")]).unwrap();
    assert_eq!(m.get("k"), Some(&"new".to_string()));
    assert_eq!(m.into_entries().len(), 1);
}

#[test]
fn invalid_key_is_a_decode_error() {
    let r = KeyValues::from_records(&vec![record(b"ok", b"v"), record(&[0xff], b"v")]);
    assert!(matches!(r, Err(EtcdError::Decode)));
}

#[test]
fn invalid_value_is_a_decode_error() {
    let r = KeyValues::from_records(&vec![record(b"k", &[0xc3, 0x28])]);
    assert!(matches!(r, Err(EtcdError::Decode)));
}

#[test]
fn non_ascii_text_is_decoded() {
    let m = KeyValues::from_records(&vec![record("clé".as_bytes(), "värde".as_bytes())]).unwrap();
    assert_eq!(m.get("clé"), Some(&"värde".to_string()));
}

#[test]
fn insert_replaces_and_adds() {
    let mut m = KeyValues::new();
    assert!(m.is_empty());
    m.insert("foo".to_string(), "bar".to_string());
    m.insert("foo".to_string(), "baz".to_string());
    m.insert("x".to_string(), "y".to_string());
    assert_eq!(m.get("foo"), Some(&"baz".to_string()));
    assert_eq!(m.get("x"), Some(&"y".to_string()));
    assert_eq!(m.into_entries().len(), 2);
}

#[test]
fn write_read_delete_read_of_one_key() {
    let client = EtcdClient::new(());
    let put = client.range("foo", None).put_request("bar");
    let read = client.range("foo", None).get_request();
    assert_eq!(read.key, put.key);
    assert!(read.range_end.is_empty());
    let stored = vec![record(&put.key, &put.value)];
    let m = KeyValues::from_records(&stored).unwrap();
    assert_eq!(m.get("foo"), Some(&"bar".to_string()));
    assert_eq!(m.into_entries(), vec![("foo".to_string(), "bar".to_string())]);
    let del = client.range("foo", None).delete_request();
    assert_eq!(del.key, read.key);
    assert_eq!(del.range_end, read.range_end);
    let m = KeyValues::from_records(&vec![]).unwrap();
    assert!(m.is_empty());
}
