use alglobo::helper::{
    id_to_coordaddr, id_to_ctrladdr, id_to_dataaddr, id_to_microservice, STAKEHOLDERS,
};
use alglobo::stakeholder::id_to_microservice_name;
use alglobo::text::{decimal_string, signed_decimal_string};

#[test]
fn peer_addresses() {
    assert_eq!(id_to_ctrladdr(0), "127.0.0.1:12340");
    assert_eq!(id_to_ctrladdr(4), "127.0.0.1:12344");
    assert_eq!(id_to_dataaddr(0), "127.0.0.1:12350");
    assert_eq!(id_to_dataaddr(3), "127.0.0.1:12353");
    assert_eq!(id_to_coordaddr(2), "127.0.0.1:1232");
    for id in [0usize, 1, 9, 10, 12, 100, 65535, usize::MAX] {
        assert_eq!(id_to_ctrladdr(id), "127.0.0.1:1234".to_owned() + &id.to_string());
        assert_eq!(id_to_dataaddr(id), "127.0.0.1:1235".to_owned() + &id.to_string());
        assert_eq!(id_to_coordaddr(id), format!("{}{}", "127.0.0.1:123", id));
    }
}

#[test]
fn stakeholder_addresses() {
    assert_eq!(STAKEHOLDERS, 3);
    assert_eq!(id_to_microservice(0), "127.0.0.1:1111");
    assert_eq!(id_to_microservice(1), "127.0.0.1:2222");
    assert_eq!(id_to_microservice(2), "127.0.0.1:3333");
}

#[test]
fn stakeholder_names() {
    assert_eq!(id_to_microservice_name(0), "Bank");
    assert_eq!(id_to_microservice_name(1), "Airline");
    assert_eq!(id_to_microservice_name(2), "Hotel");
}

#[test]
fn decimal_text() {
    assert_eq!(decimal_string(0), "0");
    assert_eq!(decimal_string(7), "7");
    assert_eq!(decimal_string(10), "10");
    assert_eq!(decimal_string(1234567890), "1234567890");
    assert_eq!(decimal_string(u64::MAX), "18446744073709551615");
    for n in [9u64, 99, 100, 101, 4096, 1 << 40] {
        assert_eq!(decimal_string(n), n.to_string());
    }
}

#[test]
fn signed_decimal_text() {
    assert_eq!(signed_decimal_string(0), "0");
    assert_eq!(signed_decimal_string(-1), "-1");
    assert_eq!(signed_decimal_string(30), "30");
    assert_eq!(signed_decimal_string(i32::MAX), "2147483647");
    assert_eq!(signed_decimal_string(i32::MIN), "-2147483648");
}
