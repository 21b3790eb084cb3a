use twackup::metadata::{metadata_entry_name, select_metadata};

#[test]
fn qualifying_entry_is_selected_under_its_suffix() {
    let r = metadata_entry_name("com.example.app", "com.example.app.postinst");
    assert_eq!(r, Some("postinst".to_string()));
}

#[test]
fn list_suffix_is_always_excluded() {
    assert_eq!(metadata_entry_name("com.example.app", "com.example.app.list"), None);
}

#[test]
fn other_package_ids_are_excluded() {
    assert_eq!(metadata_entry_name("com.example.app", "com.example.other.config"), None);
}

#[test]
fn id_as_bare_prefix_without_dot_is_excluded() {
    assert_eq!(metadata_entry_name("com.example.app", "com.example.apps.config"), None);
}

#[test]
fn exact_id_without_suffix_is_excluded() {
    assert_eq!(metadata_entry_name("com.example.app", "com.example.app"), None);
    assert_eq!(metadata_entry_name("com.example.app", "com.example.app."), None);
}

#[test]
fn multi_dot_suffix_is_kept_whole() {
    let r = metadata_entry_name("com.example.app", "com.example.app.conffiles.bak");
    assert_eq!(r, Some("conffiles.bak".to_string()));
}

#[test]
fn listing_scenario_selects_exactly_the_packages_metadata() {
    let entries = vec![
        "com.example.app.postinst".to_string(),
        "com.example.app.list".to_string(),
        "com.example.app.prerm".to_string(),
        "com.example.other.config".to_string(),
    ];
    let r = select_metadata("com.example.app", &entries);
    assert_eq!(
        r,
        vec![
            ("com.example.app.postinst".to_string(), "postinst".to_string()),
            ("com.example.app.prerm".to_string(), "prerm".to_string()),
        ]
    );
}

#[test]
fn empty_listing_selects_nothing() {
    let r = select_metadata("com.example.app", &Vec::new());
    assert_eq!(r, Vec::new());
}
