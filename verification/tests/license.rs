use prehnite_core::build_libs::{
    apply_member_license, bundle_with_prehnite, known_dependencies, license_packages, CollectedKrate,
    MY_APP_HOMEPAGE,
};
use prehnite_core::license_bundle::font::font;
use prehnite_core::license_bundle::names::{insert_all_sorted, insert_sorted};
use prehnite_core::license_bundle::{
    get_default_license_bundle, get_names_from_default_license_bundle,
    read_license_bundle_content, License, Package, BUNDLE_ENTRY_NAME, PREHNITE_LICENSE_TEXT,
};
use prehnite_core::license_list;
use std::io::Write;

fn strings(v: &[&str]) -> Vec<String> {
    v.iter().map(|s| s.to_string()).collect()
}

#[test]
fn default_bundle_is_the_fonts() {
    let names = get_names_from_default_license_bundle();
    assert_eq!(names, strings(&["Material Symbols Outlined", "Noto Sans", "Sawarabi Gothic"]));
    let bundle = get_default_license_bundle();
    assert_eq!(bundle, font());
    assert_eq!(bundle[0].license_info, "Apache-2.0");
    assert_eq!(bundle[1].license_info, "OFL-1.1");
    assert_eq!(bundle[2].repository, None);
    assert_eq!(bundle[2].homepage, Some("https://fonts.google.com/specimen/Sawarabi+Gothic".to_string()));
}

#[test]
fn package_builders() {
    let p = Package::new("foo", "MIT")
        .author("a")
        .author("b")
        .homepage("https://example.com")
        .repository("https://example.com/repo")
        .license_text("L1".to_string())
        .license_text("L2".to_string())
        .dependencies(strings(&["z", "a", "z"]));
    assert_eq!(p.name, "foo");
    assert_eq!(p.authors, strings(&["a", "b"]));
    assert_eq!(p.homepage, Some("https://example.com".to_string()));
    assert_eq!(p.repository, Some("https://example.com/repo".to_string()));
    assert_eq!(p.license_info, "MIT");
    assert_eq!(
        p.licenses,
        vec![License { full_text: "L1".to_string() }, License { full_text: "L2".to_string() }]
    );
    assert_eq!(p.dependencies, strings(&["a", "z"]));
    let q = p.override_license_text("only".to_string());
    assert_eq!(q.licenses, vec![License { full_text: "only".to_string() }]);
    let m = q.prehnite_member_license();
    assert_eq!(m.licenses, vec![License { full_text: PREHNITE_LICENSE_TEXT.to_string() }]);
}

#[test]
fn prehnite_package() {
    let p = Package::prehnite();
    assert_eq!(p.name, "prehnite");
    assert_eq!(p.license_info, "Zlib");
    assert_eq!(p.authors, strings(&["saku shirakura<saku@sakushira.com>"]));
    assert_eq!(p.homepage, Some("https://prehnite.jp".to_string()));
    assert_eq!(p.dependencies, get_names_from_default_license_bundle());
    assert_eq!(p.licenses.len(), 1);
}

#[test]
fn sorted_insertion_keeps_each_name_once() {
    let mut v: Vec<String> = Vec::new();
    insert_sorted(&mut v, "b".to_string());
    insert_sorted(&mut v, "a".to_string());
    insert_sorted(&mut v, "c".to_string());
    insert_sorted(&mut v, "b".to_string());
    assert_eq!(v, strings(&["a", "b", "c"]));
    insert_all_sorted(&mut v, strings(&["B", "ab", "a"]));
    assert_eq!(v, strings(&["B", "a", "ab", "b", "c"]));
}

#[test]
fn prehnite_is_appended_when_missing() {
    let r = bundle_with_prehnite(font());
    assert_eq!(r.len(), 4);
    assert_eq!(r[3], Package::prehnite());
}

#[test]
fn existing_prehnite_gets_default_dependencies() {
    let mut v = font();
    v.push(Package::new("prehnite", "Zlib").dependencies(strings(&["sqlx"])));
    v.push(Package::new("prehnite", "MIT"));
    let r = bundle_with_prehnite(v);
    assert_eq!(r.len(), 5);
    assert_eq!(
        r[3].dependencies,
        strings(&["Material Symbols Outlined", "Noto Sans", "Sawarabi Gothic", "sqlx"])
    );
    assert!(r[4].dependencies.is_empty());
}

#[test]
fn members_get_the_application_license() {
    let v = vec![
        Package::new("prehnite_core", "Zlib").homepage(MY_APP_HOMEPAGE).license_text("x".to_string()),
        Package::new("other", "MIT").homepage("https://prehnite.jp").license_text("y".to_string()),
    ];
    let r = apply_member_license(v);
    assert_eq!(r[0].licenses, vec![License { full_text: PREHNITE_LICENSE_TEXT.to_string() }]);
    assert_eq!(r[1].licenses, vec![License { full_text: "y".to_string() }]);
}

#[test]
fn standalone_bundle_keeps_dependency_order() {
    let p = license_list::Package::new("foo", "MIT").dependencies(strings(&["z", "a", "z"]));
    assert_eq!(p.dependencies, strings(&["z", "a", "z"]));
    let names = license_list::get_names_from_default_license_bundle();
    assert_eq!(names, strings(&["Material Symbols Outlined", "Noto Sans", "Sawarabi Gothic"]));
    assert_eq!(license_list::get_default_license_bundle().len(), 3);
    let p = license_list::Package::prehnite();
    assert_eq!(p.name, "prehnite");
    assert_eq!(p.dependencies, names);
    assert_eq!(p.licenses.len(), 1);
    assert_eq!(license_list::font()[1].name, "Noto Sans");
}

fn archive(entry: &str, content: &[u8]) -> Vec<u8> {
    let mut w = zip::ZipWriter::new(std::io::Cursor::new(Vec::new()));
    let options = zip::write::SimpleFileOptions::default()
        .compression_method(zip::CompressionMethod::Stored);
    w.start_file(entry, options).unwrap();
    w.write_all(content).unwrap();
    w.finish().unwrap().into_inner()
}

#[test]
fn bundle_content_is_read_from_its_entry() {
    let data = archive(BUNDLE_ENTRY_NAME, b"[1,2,3]");
    assert_eq!(read_license_bundle_content(&data), Some(b"[1,2,3]".to_vec()));
}

#[test]
fn archive_without_content_entry_gives_nothing() {
    let data = archive("other", b"x");
    assert_eq!(read_license_bundle_content(&data), None);
    assert_eq!(read_license_bundle_content(b"not a zip"), None);
}

#[test]
fn dependencies_are_restricted_to_gathered_crates() {
    let names = strings(&["serde", "zip", "anyhow"]);
    assert_eq!(
        known_dependencies(&strings(&["zip", "libc", "anyhow", "zip"]), &names),
        strings(&["anyhow", "zip"])
    );
    assert!(known_dependencies(&strings(&["libc"]), &names).is_empty());
}

fn collected(name: &str, homepage: Option<&str>, deps: &[&str]) -> CollectedKrate {
    CollectedKrate {
        name: name.to_string(),
        authors: strings(&["someone"]),
        homepage: homepage.map(|h| h.to_string()),
        repository: None,
        license_info: "MIT OR Apache-2.0".to_string(),
        license_texts: strings(&["text"]),
        dependencies: strings(deps),
    }
}

#[test]
fn gathered_crates_become_packages() {
    let ks = vec![
        collected("prehnite_core", Some(MY_APP_HOMEPAGE), &["zip", "libc"]),
        collected("zip", None, &["crc32fast"]),
        collected("crc32fast", Some("https://example.com"), &[]),
    ];
    let r = license_packages(&ks);
    assert_eq!(r.len(), 3);
    assert_eq!(r[0].name, "prehnite_core");
    assert_eq!(r[0].dependencies, strings(&["zip"]));
    assert_eq!(r[0].licenses, vec![License { full_text: PREHNITE_LICENSE_TEXT.to_string() }]);
    assert_eq!(r[1].dependencies, strings(&["crc32fast"]));
    assert_eq!(r[1].licenses, vec![License { full_text: "text".to_string() }]);
    assert_eq!(r[2].license_info, "MIT OR Apache-2.0");
    assert_eq!(r[2].authors, strings(&["someone"]));
}

#[test]
fn bundling_twice_is_bundling_once() {
    let once = bundle_with_prehnite(font());
    let twice = bundle_with_prehnite(once.clone());
    assert_eq!(twice, once);
    let members = apply_member_license(vec![Package::new("a", "MIT").homepage(MY_APP_HOMEPAGE)]);
    assert_eq!(apply_member_license(members.clone()), members);
}
