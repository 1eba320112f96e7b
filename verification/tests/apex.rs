use ddns::domain::root_domain_name;

#[test]
fn apex_of_three_labels_is_last_two() {
    assert_eq!(root_domain_name(String::from("home.example.com")), "example.com");
}

#[test]
fn apex_of_two_labels_is_the_name_itself() {
    assert_eq!(root_domain_name(String::from("example.com")), "example.com");
}

#[test]
fn apex_of_four_labels_is_last_two() {
    assert_eq!(root_domain_name(String::from("a.b.example.com")), "example.com");
}

#[test]
fn apex_of_single_label_is_the_name_itself() {
    assert_eq!(root_domain_name(String::from("localhost")), "localhost");
}

#[test]
fn apex_of_empty_name_is_empty() {
    assert_eq!(root_domain_name(String::new()), "");
}

#[test]
fn apex_ignores_multi_label_public_suffixes() {
    // Documented limitation: no public-suffix list is consulted, so the
    // derived apex under `co.uk` is the suffix itself.
    assert_eq!(root_domain_name(String::from("home.example.co.uk")), "co.uk");
}

#[test]
fn apex_keeps_empty_labels() {
    // "a..com" has three labels, the middle one empty.
    assert_eq!(root_domain_name(String::from("a..com")), ".com");
}
