use africa_research_base::initialize;

#[test]
fn test_initialize() {
    let admin = [7u8; 32];
    let registry = initialize(admin, 254);
    assert_eq!(registry.owner, admin);
    assert_eq!(registry.total_datasets, 0);
    assert_eq!(registry.bump, 254);
}
