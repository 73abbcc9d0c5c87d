use tx_lifecycle::answer::{Binding, Concept, Row, Value, ValueType};
use tx_lifecycle::manager::Manager;
use tx_lifecycle::model::{SessionType, TransactionId, TransactionType};
use tx_lifecycle::options::Options;
use tx_lifecycle::reply::SessionReply;
use tx_lifecycle::stream::{reversed, ResultStream};

fn attribute(label: &str, value: Value) -> Concept {
    Concept::Attribute { type_label: label.to_string(), value }
}

#[test]
fn a_value_gives_only_what_it_is() {
    let string = Value::String("a@b.c".to_string());
    assert_eq!(string.get_type(), ValueType::String);
    assert_eq!(string.try_get_string(), Some(&"a@b.c".to_string()));
    assert_eq!(string.try_get_integer(), None);
    assert_eq!(string.try_get_boolean(), None);
    assert_eq!(string.try_get_double_bits(), None);
    assert_eq!(string.try_get_datetime_millis(), None);
    let long = Value::Long(-7);
    assert_eq!(long.get_type(), ValueType::Long);
    assert_eq!(long.try_get_integer(), Some(-7));
    assert_eq!(long.try_get_string(), None);
    let boolean = Value::Boolean(true);
    assert_eq!(boolean.get_type(), ValueType::Boolean);
    assert_eq!(boolean.try_get_boolean(), Some(true));
    assert_eq!(boolean.try_get_integer(), None);
    let double = Value::Double(2.5f64.to_bits());
    assert_eq!(double.get_type(), ValueType::Double);
    assert_eq!(double.try_get_double_bits().map(f64::from_bits), Some(2.5));
    assert_eq!(double.try_get_integer(), None);
    let datetime = Value::DateTime(1_700_000_000_000);
    assert_eq!(datetime.get_type(), ValueType::DateTime);
    assert_eq!(datetime.try_get_datetime_millis(), Some(1_700_000_000_000));
    assert_eq!(datetime.try_get_integer(), None);
}

#[test]
fn a_value_is_written_as_text() {
    assert_eq!(Value::String("Alice".to_string()).render(), Some("Alice".to_string()));
    assert_eq!(Value::String(String::new()).render(), Some(String::new()));
    assert_eq!(Value::Long(0).render(), Some("0".to_string()));
    assert_eq!(Value::Long(42).render(), Some("42".to_string()));
    assert_eq!(Value::Long(-15).render(), Some("-15".to_string()));
    assert_eq!(Value::Long(i64::MAX).render(), Some(i64::MAX.to_string()));
    assert_eq!(Value::Long(i64::MIN).render(), Some(i64::MIN.to_string()));
    assert_eq!(Value::Boolean(true).render(), Some("true".to_string()));
    assert_eq!(Value::Boolean(false).render(), Some("false".to_string()));
    assert_eq!(Value::Double(1.0f64.to_bits()).render(), None);
    assert_eq!(Value::DateTime(0).render(), None);
}

#[test]
fn a_concept_gives_the_value_it_carries() {
    let email = attribute("email", Value::String("jk@vaticle.com".to_string()));
    assert_eq!(email.try_get_string(), Some(&"jk@vaticle.com".to_string()));
    assert_eq!(email.try_get_integer(), None);
    assert_eq!(email.try_get_value(), Some(&Value::String("jk@vaticle.com".to_string())));
    let count = Concept::Value(Value::Long(3));
    assert_eq!(count.try_get_integer(), Some(3));
    assert_eq!(count.try_get_string(), None);
    let age = attribute("age", Value::Long(30));
    assert_eq!(age.try_get_integer(), Some(30));
    for concept in [
        Concept::Type { label: "user".to_string() },
        Concept::Entity { type_label: "user".to_string() },
        Concept::Relation { type_label: "friendship".to_string() },
    ] {
        assert_eq!(concept.try_get_value(), None);
        assert_eq!(concept.try_get_string(), None);
        assert_eq!(concept.try_get_integer(), None);
    }
}

#[test]
fn unwrap_string_gives_the_string() {
    assert_eq!(attribute("full-name", Value::String("Kevin Morrison".to_string())).unwrap_string(), "Kevin Morrison");
    assert_eq!(Concept::Value(Value::String("x".to_string())).unwrap_string(), "x");
}

#[test]
fn a_row_finds_the_first_binding_of_a_variable() {
    let mut row = Row::new();
    assert_eq!(row.get("e"), None);
    row.bind("e".to_string(), attribute("email", Value::String("first".to_string())));
    row.bind("p".to_string(), attribute("phone", Value::String("110000000".to_string())));
    row.bind("e".to_string(), attribute("email", Value::String("second".to_string())));
    assert_eq!(row.bindings.len(), 3);
    assert_eq!(
        row.bindings[1],
        Binding { variable: "p".to_string(), concept: attribute("phone", Value::String("110000000".to_string())) }
    );
    assert_eq!(row.get("e").unwrap().try_get_string(), Some(&"first".to_string()));
    assert_eq!(row.get("p").unwrap().try_get_string(), Some(&"110000000".to_string()));
    assert_eq!(row.get("username"), None);
    assert_eq!(row.get(""), None);
    assert_eq!(row.get("E"), None);
}

#[test]
fn reversed_turns_the_order_round() {
    assert_eq!(reversed(vec![1, 2, 3]), vec![3, 2, 1]);
    assert_eq!(reversed(vec!["a"]), vec!["a"]);
    assert_eq!(reversed(Vec::<u8>::new()), Vec::<u8>::new());
}

#[test]
fn a_stream_hands_out_its_items_in_order() {
    let mut manager = Manager::new("D".to_string());
    let session = manager.open_session(SessionType::Data, SessionReply::Opened).unwrap();
    let owner = manager.open_transaction(session, TransactionType::Read, Options::new()).unwrap();
    let mut stream = ResultStream::new(owner, vec!["a".to_string(), "b".to_string(), "c".to_string()]);
    assert_eq!(stream.owner(), owner);
    assert_eq!(stream.len(), 3);
    assert!(!stream.is_exhausted());
    assert_eq!(manager.next(&mut stream), Ok(Some("a".to_string())));
    assert_eq!(manager.next(&mut stream), Ok(Some("b".to_string())));
    assert_eq!(stream.len(), 1);
    assert_eq!(manager.next(&mut stream), Ok(Some("c".to_string())));
    assert!(stream.is_exhausted());
    assert_eq!(manager.next(&mut stream), Ok(None));
    assert_eq!(manager.next(&mut stream), Ok(None));
}

#[test]
fn a_stream_is_collected_from_where_it_stands() {
    let mut manager = Manager::new("D".to_string());
    let session = manager.open_session(SessionType::Data, SessionReply::Opened).unwrap();
    let owner = manager.open_transaction(session, TransactionType::Read, Options::new()).unwrap();
    let mut stream = ResultStream::new(owner, vec![10, 20, 30, 40]);
    assert_eq!(manager.next(&mut stream), Ok(Some(10)));
    assert_eq!(manager.collect(stream), Ok(vec![20, 30, 40]));
    let empty = ResultStream::new(owner, Vec::<i32>::new());
    assert_eq!(manager.collect(empty), Ok(vec![]));
}

#[test]
fn a_cancelled_stream_is_empty() {
    let mut manager = Manager::new("D".to_string());
    let session = manager.open_session(SessionType::Data, SessionReply::Opened).unwrap();
    let owner = manager.open_transaction(session, TransactionType::Read, Options::new()).unwrap();
    let mut stream = ResultStream::new(owner, vec![1, 2, 3]);
    assert_eq!(manager.next(&mut stream), Ok(Some(1)));
    stream.cancel();
    assert!(stream.is_exhausted());
    assert_eq!(stream.owner(), owner);
    assert_eq!(manager.next(&mut stream), Ok(None));
}

#[test]
fn a_stream_without_an_open_owner_gives_nothing() {
    let manager = Manager::new("D".to_string());
    let mut stream = ResultStream::new(TransactionId { index: 0 }, vec![1, 2]);
    assert_eq!(manager.next(&mut stream), Err(tx_lifecycle::error::ErrorKind::TransactionClosed));
    assert_eq!(stream.len(), 2);
}
