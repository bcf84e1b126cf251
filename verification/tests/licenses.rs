use ghastoolkit::{License, Licenses};

#[test]
fn test_license_from_str() {
    let license = License::from("Apache-2.0");
    assert_eq!(license, License::Apache(String::from("2.0")));
}

#[test]
fn test_license_versions() {
    let license = License::from("GPL-3.0");
    assert_eq!(license, License::GPL(String::from("3.0")));

    let license = License::from("AGPL-3.0");
    assert_eq!(license, License::AGPL(String::from("3.0")));

    let license = License::from("MPL-3.0");
    assert_eq!(license, License::MPL(String::from("3.0")));
}

#[test]
fn test_single_license() {
    let licenses = Licenses::from("Apache-2.0");

    let correct = Licenses {
        licenses: vec![License::Apache(String::from("2.0"))],
    };

    assert_eq!(licenses, correct);
    assert_eq!(licenses.len(), 1);
}

#[test]
fn test_licenses_from_str() {
    let licenses = Licenses::from("Apache-2.0 AND MIT");

    let correct = Licenses {
        licenses: vec![License::Apache(String::from("2.0")), License::MIT],
    };

    assert_eq!(licenses, correct);
    assert_eq!(licenses.len(), 2);
}

#[test]
fn test_licenses_from_vec() {
    let licenses = Licenses::from(vec!["Apache-2.0", "MIT"]);

    let correct = Licenses {
        licenses: vec![License::Apache(String::from("2.0")), License::MIT],
    };

    assert_eq!(licenses, correct);
    assert_eq!(licenses.len(), 2);
}

#[test]
fn test_licenses_commasep() {
    let licenses = Licenses::from("Apache-2.0, MIT");

    let correct = Licenses {
        licenses: vec![License::Apache(String::from("2.0")), License::MIT],
    };

    assert_eq!(licenses, correct);
}

#[test]
fn test_license_families() {
    assert_eq!(License::from("MIT"), License::MIT);
    assert_eq!(License::from("cc0"), License::CC0);
    assert_eq!(License::from("ISC"), License::ISC);
    assert_eq!(License::from("LGPL-2.1"), License::LGPL("2.1".to_string()));
    assert_eq!(License::from("BSD-3-Clause"), License::BSD("3-clause".to_string()));
    assert_eq!(
        License::from("Zlib"),
        License::Custom("zlib".to_string())
    );
}

#[test]
fn test_licenses_contains() {
    let licenses = Licenses::from("Apache-2.0 AND MIT");
    assert!(licenses.contains(&License::MIT));
    assert!(licenses.contains(&License::Apache("2.0".to_string())));
    assert!(!licenses.contains(&License::ISC));
    assert!(!licenses.is_empty());
}
