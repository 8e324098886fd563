use flash_wizard::catalog::DeviceCatalog;

fn ids(names: &[&str]) -> Vec<String> {
    names.iter().map(|s| s.to_string()).collect()
}

#[test]
fn select_all_on_five_devices_keeps_order() {
    let mut catalog = DeviceCatalog::new();
    catalog.populate(ids(&["/dev/sdb", "/dev/sdc", "/dev/sdd", "/dev/sde", "/dev/sdf"]));
    assert!(catalog.selected_ids().is_empty());
    catalog.select_all(true);
    assert_eq!(
        catalog.selected_ids(),
        ids(&["/dev/sdb", "/dev/sdc", "/dev/sdd", "/dev/sde", "/dev/sdf"])
    );
}

#[test]
fn select_all_false_changes_nothing() {
    let mut catalog = DeviceCatalog::new();
    catalog.populate(ids(&["/dev/sdb", "/dev/sdc"]));
    catalog.set_selected(1, true);
    catalog.select_all(false);
    assert_eq!(catalog.selected_ids(), ids(&["/dev/sdc"]));
    assert!(catalog.any_selected());
}

#[test]
fn populate_replaces_and_deduplicates() {
    let mut catalog = DeviceCatalog::new();
    catalog.populate(ids(&["/dev/sdb"]));
    catalog.select_all(true);
    catalog.populate(ids(&["/dev/sdc", "/dev/sdd", "/dev/sdc"]));
    assert_eq!(catalog.entries.len(), 2);
    assert_eq!(catalog.entries[0].id, "/dev/sdc");
    assert_eq!(catalog.entries[1].id, "/dev/sdd");
    assert!(!catalog.any_selected());
    assert!(catalog.contains(&"/dev/sdd".to_string()));
    assert!(!catalog.contains(&"/dev/sdb".to_string()));
}

#[test]
fn set_selected_out_of_range_changes_nothing() {
    let mut catalog = DeviceCatalog::new();
    catalog.populate(ids(&["/dev/sdb"]));
    catalog.set_selected(5, true);
    assert!(!catalog.any_selected());
}
