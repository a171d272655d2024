use serial_expect::error::SelectionError;
use serial_expect::ports::{get_port, get_portlist};

#[test]
fn no_transport_is_reported() {
    assert_eq!(get_port(&vec![]), Err(SelectionError::NoneAvailable));
}

#[test]
fn two_transports_are_ambiguous() {
    let list = vec!["/dev/ttyUSB0".to_string(), "/dev/ttyUSB1".to_string()];
    assert_eq!(get_port(&list), Err(SelectionError::Ambiguous));
}

#[test]
fn many_transports_are_ambiguous() {
    let list = vec!["a".to_string(), "b".to_string(), "c".to_string()];
    assert_eq!(get_port(&list), Err(SelectionError::Ambiguous));
}

#[test]
fn the_only_transport_is_chosen() {
    let list = vec!["/dev/ttyUSB0".to_string()];
    assert_eq!(get_port(&list), Ok("/dev/ttyUSB0".to_string()));
}

#[test]
fn portlist_keeps_names_in_order() {
    let found = vec!["COM3".to_string(), "COM1".to_string()];
    assert_eq!(get_portlist(Some(found.clone())), found);
    assert_eq!(get_portlist(Some(vec![])), Vec::<String>::new());
}

#[test]
fn failed_enumeration_finds_nothing() {
    assert_eq!(get_portlist(None), Vec::<String>::new());
    assert_eq!(get_port(&get_portlist(None)), Err(SelectionError::NoneAvailable));
}

#[test]
fn selection_errors_have_their_words() {
    assert_eq!(SelectionError::NoneAvailable.message(), "serial is not alive!");
    assert_eq!(SelectionError::Ambiguous.message(), "many serials");
}
