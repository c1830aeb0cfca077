use package_installer::package::{Package, TransactionDetails};

fn details_of(package_id: &str) -> TransactionDetails {
    TransactionDetails {
        package_id: package_id.to_string(),
        summary: "A summary".to_string(),
        description: "A longer\ndescription; with a semicolon".to_string(),
        url: "https://example.org/foo".to_string(),
        license: "GPL-3.0".to_string(),
        size: "123456".to_string(),
    }
}

fn package_of(package_id: &str) -> Package {
    Package::new("/tmp/foo.deb".to_string(), details_of(package_id))
}

#[test]
fn identifier_with_one_field() {
    let package = package_of("pkgname");
    assert_eq!(package.name, "pkgname");
    assert_eq!(package.version, "");
    assert_eq!(package.architecture, "");
}

#[test]
fn identifier_with_two_fields() {
    let package = package_of("foo;1.0");
    assert_eq!(package.name, "foo");
    assert_eq!(package.version, "1.0");
    assert_eq!(package.architecture, "");
}

#[test]
fn identifier_with_three_fields() {
    let package = package_of("foo;1.0;amd64");
    assert_eq!(package.name, "foo");
    assert_eq!(package.version, "1.0");
    assert_eq!(package.architecture, "amd64");
}

#[test]
fn identifier_with_more_than_three_fields() {
    let package = package_of("foo;1.0;amd64;extra");
    assert_eq!(package.name, "foo");
    assert_eq!(package.version, "1.0");
    assert_eq!(package.architecture, "amd64");
}

#[test]
fn later_fields_change_nothing() {
    let short = package_of("foo;1.0;amd64");
    let long = package_of("foo;1.0;amd64;installed:local;;x");
    assert_eq!(short.name, long.name);
    assert_eq!(short.version, long.version);
    assert_eq!(short.architecture, long.architecture);
}

#[test]
fn empty_identifier() {
    let package = package_of("");
    assert_eq!(package.id, "");
    assert_eq!(package.name, "");
    assert_eq!(package.version, "");
    assert_eq!(package.architecture, "");
}

#[test]
fn identifier_of_separators_only() {
    let package = package_of(";;");
    assert_eq!(package.name, "");
    assert_eq!(package.version, "");
    assert_eq!(package.architecture, "");
    let package = package_of(";");
    assert_eq!(package.name, "");
    assert_eq!(package.version, "");
    assert_eq!(package.architecture, "");
}

#[test]
fn empty_fields_in_the_middle() {
    let package = package_of("foo;;amd64");
    assert_eq!(package.name, "foo");
    assert_eq!(package.version, "");
    assert_eq!(package.architecture, "amd64");
    let package = package_of(";1.0;");
    assert_eq!(package.name, "");
    assert_eq!(package.version, "1.0");
    assert_eq!(package.architecture, "");
}

#[test]
fn identifier_beyond_ascii() {
    let package = package_of("päckchen;1.0~β;amd64;später");
    assert_eq!(package.name, "päckchen");
    assert_eq!(package.version, "1.0~β");
    assert_eq!(package.architecture, "amd64");
}

#[test]
fn identifier_is_kept_whole() {
    let package = package_of("foo;1.0;amd64;extra");
    assert_eq!(package.id, "foo;1.0;amd64;extra");
}

#[test]
fn path_and_metadata_are_taken_over() {
    let package = package_of("foo;1.0;amd64");
    assert_eq!(package.path, "/tmp/foo.deb");
    assert_eq!(package.summary, "A summary");
    assert_eq!(package.description, "A longer\ndescription; with a semicolon");
    assert_eq!(package.url, "https://example.org/foo");
    assert_eq!(package.license, "GPL-3.0");
    assert_eq!(package.size, "123456");
}

#[test]
fn metadata_is_not_validated() {
    let tx = TransactionDetails {
        package_id: "x".to_string(),
        summary: String::new(),
        description: ";;;".to_string(),
        url: "not a url".to_string(),
        license: String::new(),
        size: "minus three".to_string(),
    };
    let package = Package::new(String::new(), tx);
    assert_eq!(package.path, "");
    assert_eq!(package.summary, "");
    assert_eq!(package.description, ";;;");
    assert_eq!(package.url, "not a url");
    assert_eq!(package.license, "");
    assert_eq!(package.size, "minus three");
}

#[test]
fn a_package_can_be_cloned_and_printed() {
    let package = package_of("foo;1.0;amd64");
    let copy = package.clone();
    assert_eq!(copy.id, package.id);
    assert_eq!(copy.name, package.name);
    assert!(format!("{:?}", copy).contains("amd64"));
}
