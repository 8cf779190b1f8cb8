use safeguards::lookup::{
    collect_present, create_or_fallback, find_resource_by_id, find_resource_or_default,
    try_create_resource, Container, CreateError, Resource,
};

fn sample_resources() -> Vec<Resource> {
    vec![
        Resource::new(1, "Database"),
        Resource::new(2, "FileSystem"),
        Resource::new(3, "Network"),
    ]
}

#[test]
fn find_existing_resource() {
    let resources = sample_resources();
    let found = find_resource_by_id(&resources, 2).expect("id 2 is present");
    assert_eq!(found.id, 2);
    assert_eq!(found.name, "FileSystem");
}

#[test]
fn find_absent_id_returns_none() {
    let resources = sample_resources();
    assert!(find_resource_by_id(&resources, 999).is_none());
}

#[test]
fn find_in_empty_list_returns_none() {
    let resources: Vec<Resource> = Vec::new();
    assert!(find_resource_by_id(&resources, 1).is_none());
}

#[test]
fn find_returns_first_match() {
    let resources = vec![
        Resource::new(5, "first_five"),
        Resource::new(5, "second_five"),
    ];
    let found = find_resource_by_id(&resources, 5).unwrap();
    assert_eq!(found.name, "first_five");
}

#[test]
fn absent_id_falls_back_to_default_resource() {
    let resources = sample_resources();
    let found = find_resource_or_default(&resources, 999);
    assert_eq!(found.id, 0);
    assert_eq!(found.name, "Default");
    let present = find_resource_or_default(&resources, 3);
    assert_eq!(present.id, 3);
    assert_eq!(present.name, "Network");
}

#[test]
fn bad_arguments_fall_back_to_fallback_resource() {
    let fallback = create_or_fallback(0, "");
    assert_eq!(fallback.id, 1);
    assert_eq!(fallback.name, "Fallback");
    let built = create_or_fallback(9, "Real");
    assert_eq!(built.id, 9);
    assert_eq!(built.name, "Real");
}

#[test]
fn create_valid_resource() {
    let res = try_create_resource(5, "ValidResource").expect("valid arguments");
    assert_eq!(res.id, 5);
    assert_eq!(res.name, "ValidResource");
}

#[test]
fn create_rejects_nonpositive_id() {
    assert_eq!(
        try_create_resource(-1, "InvalidResource"),
        Err(CreateError::NonPositiveId)
    );
    assert_eq!(
        try_create_resource(0, "InvalidResource"),
        Err(CreateError::NonPositiveId)
    );
}

#[test]
fn create_rejects_empty_name_after_id() {
    assert_eq!(try_create_resource(3, ""), Err(CreateError::EmptyName));
    assert_eq!(try_create_resource(0, ""), Err(CreateError::NonPositiveId));
}

#[test]
fn create_error_messages() {
    assert_eq!(
        CreateError::NonPositiveId.message(),
        "Invalid ID: must be positive"
    );
    assert_eq!(
        CreateError::EmptyName.message(),
        "Invalid name: cannot be empty"
    );
}

#[test]
fn qualifies_for_processing_above_five() {
    assert!(Resource::new(10, "Cache").qualifies_for_processing());
    assert!(!Resource::new(5, "Edge").qualifies_for_processing());
    assert!(!Resource::new(1, "Low").qualifies_for_processing());
}

#[test]
fn collect_present_keeps_order_and_skips_empty_slots() {
    let slots = vec![
        Some(Resource::new(1, "First")),
        None,
        Some(Resource::new(3, "Third")),
        None,
        Some(Resource::new(5, "Fifth")),
    ];
    let present = collect_present(&slots);
    assert_eq!(present.len(), 3);
    let names: Vec<&str> = present.iter().map(|r| r.name.as_str()).collect();
    assert_eq!(names, vec!["First", "Third", "Fifth"]);
}

#[test]
fn collect_present_of_all_empty_slots() {
    let slots: Vec<Option<Resource>> = vec![None, None];
    assert_eq!(collect_present(&slots), Vec::<Resource>::new());
}

#[test]
fn container_with_resource_reports_info() {
    let container = Container {
        resource: Some(Resource::new(1, "First")),
    };
    assert_eq!(container.get_resource_name(), Some(&"First".to_string()));
    assert_eq!(container.get_resource_id(), Some(1));
    assert_eq!(
        container.resource_info(),
        Some(("First".to_string(), 1))
    );
}

#[test]
fn empty_container_reports_absence() {
    let container = Container { resource: None };
    assert_eq!(container.get_resource_name(), None);
    assert_eq!(container.get_resource_id(), None);
    assert_eq!(container.resource_info(), None);
}
