use zcode_pet::window::monitor_index_by_name;

#[test]
fn monitor_is_found_by_exact_name() {
    let names = vec![
        Some("Built-in Retina Display".to_string()),
        None,
        Some("DELL U2720Q".to_string()),
        Some("DELL U2720Q".to_string()),
    ];
    assert_eq!(monitor_index_by_name(&names, "DELL U2720Q"), Some(2));
    assert_eq!(monitor_index_by_name(&names, "Built-in Retina Display"), Some(0));
    assert_eq!(monitor_index_by_name(&names, "dell u2720q"), None);
    assert_eq!(monitor_index_by_name(&names, ""), None);
    assert_eq!(monitor_index_by_name(&vec![], "x"), None);
}
