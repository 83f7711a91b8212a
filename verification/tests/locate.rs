use device_restart::locate::{locate_device, IdQuery};

fn id_buffer(s: &str) -> IdQuery {
    let mut units: Vec<u16> = s.encode_utf16().collect();
    units.push(0);
    IdQuery::Id(units)
}

fn chars(s: &str) -> Vec<char> {
    s.chars().collect()
}

#[test]
fn locate_empty_class_is_not_found_not_error() {
    let queries: Vec<IdQuery> = Vec::new();
    let target = chars("PCI\\VEN_11AB&DEV_2B38");
    assert_eq!(locate_device(&queries, &target), Ok(None));
}

#[test]
fn locate_finds_target() {
    let queries = vec![
        id_buffer("USB\\VID_045E&PID_0001"),
        id_buffer("PCI\\VEN_11AB&DEV_2B38&SUBSYS_045E0008&REV_00\\4&22AAFC1D&0&00E0"),
        id_buffer("ACPI\\PNP0A08"),
    ];
    let target = chars("PCI\\VEN_11AB&DEV_2B38&SUBSYS_045E0008&REV_00\\4&22AAFC1D&0&00E0");
    assert_eq!(locate_device(&queries, &target), Ok(Some(1)));
}

#[test]
fn locate_absent_target_is_not_found() {
    let queries = vec![id_buffer("USB\\VID_045E&PID_0001"), id_buffer("ACPI\\PNP0A08")];
    let target = chars("PCI\\VEN_11AB&DEV_2B38");
    assert_eq!(locate_device(&queries, &target), Ok(None));
}

#[test]
fn locate_returns_first_match() {
    let queries = vec![id_buffer("PCI\\A"), id_buffer("PCI\\A")];
    let target = chars("PCI\\A");
    assert_eq!(locate_device(&queries, &target), Ok(Some(0)));
}

#[test]
fn locate_order_independent_for_unique_ids() {
    let target = chars("PCI\\B");
    let forward = vec![id_buffer("PCI\\A"), id_buffer("PCI\\B"), id_buffer("PCI\\C")];
    let backward = vec![id_buffer("PCI\\C"), id_buffer("PCI\\B"), id_buffer("PCI\\A")];
    assert_eq!(locate_device(&forward, &target), Ok(Some(1)));
    assert_eq!(locate_device(&backward, &target), Ok(Some(1)));
}

#[test]
fn locate_comparison_is_case_sensitive() {
    let queries = vec![id_buffer("pci\\a")];
    let target = chars("PCI\\A");
    assert_eq!(locate_device(&queries, &target), Ok(None));
}

#[test]
fn locate_query_failure_aborts_scan() {
    let queries = vec![
        id_buffer("USB\\VID_045E&PID_0001"),
        IdQuery::Failed(String::from("access denied")),
        id_buffer("PCI\\B"),
    ];
    let target = chars("PCI\\B");
    assert_eq!(locate_device(&queries, &target), Err(String::from("access denied")));
}

#[test]
fn locate_match_before_failure_wins() {
    let queries = vec![id_buffer("PCI\\B"), IdQuery::Failed(String::from("access denied"))];
    let target = chars("PCI\\B");
    assert_eq!(locate_device(&queries, &target), Ok(Some(0)));
}

#[test]
fn locate_compares_replaced_invalid_units() {
    let queries = vec![IdQuery::Id(vec![0xD800u16, 0x41u16, 0u16])];
    let target = vec!['\u{FFFD}', 'A'];
    assert_eq!(locate_device(&queries, &target), Ok(Some(0)));
}
