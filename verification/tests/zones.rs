use ddns::errors::DdnsError;
use ddns::zone::{locate_zone, Zone};

fn zone(id: &str, name: &str) -> Zone {
    Zone { id: String::from(id), name: String::from(name) }
}

#[test]
fn locates_the_zone_of_the_apex() {
    let zones = vec![zone("z1", "other.org"), zone("z2", "example.com")];
    let found = locate_zone(&zones, &String::from("home.example.com")).unwrap();
    assert_eq!(found.id, "z2");
    assert_eq!(found.name, "example.com");
}

#[test]
fn locates_a_zone_named_exactly_like_the_fqdn() {
    let zones = vec![zone("z1", "example.com")];
    let found = locate_zone(&zones, &String::from("example.com")).unwrap();
    assert_eq!(found.id, "z1");
}

#[test]
fn no_matching_zone_is_not_found() {
    let zones = vec![zone("z1", "other.org")];
    let r = locate_zone(&zones, &String::from("home.example.com"));
    assert_eq!(r, Err(DdnsError::NotFoundError));
}

#[test]
fn an_empty_listing_is_not_found() {
    let zones: Vec<Zone> = Vec::new();
    let r = locate_zone(&zones, &String::from("home.example.com"));
    assert_eq!(r, Err(DdnsError::NotFoundError));
}

#[test]
fn duplicate_zone_names_are_not_silently_resolved() {
    let zones = vec![zone("z1", "example.com"), zone("z2", "example.com")];
    let r = locate_zone(&zones, &String::from("home.example.com"));
    assert_eq!(r, Err(DdnsError::NotFoundError));
}

#[test]
fn matching_is_exact_not_by_suffix() {
    let zones = vec![zone("z1", "home.example.com"), zone("z2", "ample.com")];
    let r = locate_zone(&zones, &String::from("home.example.com"));
    assert_eq!(r, Err(DdnsError::NotFoundError));
}
