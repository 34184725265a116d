use frame_logger::startup::{find_interface, startup_banner};

fn names(list: &[&str]) -> Vec<String> {
    list.iter().map(|name| name.to_string()).collect()
}

#[test]
fn banner_ends_with_a_space() {
    assert_eq!(startup_banner("br-f8888a63c67d"), "Interface name: br-f8888a63c67d ");
    assert_eq!(startup_banner(""), "Interface name:  ");
}

#[test]
fn interface_is_found_by_its_exact_name() {
    let list = names(&["lo", "eth0", "br-f8888a63c67d", "docker0"]);
    assert_eq!(find_interface(&list, "br-f8888a63c67d"), Some(2));
    assert_eq!(find_interface(&list, "lo"), Some(0));
    assert_eq!(find_interface(&list, "docker0"), Some(3));
}

#[test]
fn interface_name_must_match_in_full() {
    let list = names(&["lo", "eth0", "br-f8888a63c67d"]);
    assert_eq!(find_interface(&list, "br-f8888a63c67"), None);
    assert_eq!(find_interface(&list, "br-f8888a63c67d "), None);
    assert_eq!(find_interface(&list, "BR-F8888A63C67D"), None);
    assert_eq!(find_interface(&list, "eth"), None);
    assert_eq!(find_interface(&list, ""), None);
    assert_eq!(find_interface(&names(&[]), "lo"), None);
}

#[test]
fn first_of_several_matches_is_found() {
    let list = names(&["eth1", "eth0", "eth0", "eth1"]);
    assert_eq!(find_interface(&list, "eth0"), Some(1));
    assert_eq!(find_interface(&list, "eth1"), Some(0));
}
