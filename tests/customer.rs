use accounts_application::customer::{Customer, CustomerStatus, CustomerType};

#[test]
fn test_create_individual_customer() {
    let customer = Customer::new(
        "John Doe".to_string(),
        CustomerType::Individual,
        Some("EXT-12345".to_string()),
        Some("john@example.com".to_string()),
        Some("+1-555-0100".to_string()),
    );

    assert!(customer.is_ok());
    let c = customer.unwrap();
    assert_eq!(c.customer_name, "John Doe");
    assert_eq!(c.customer_type, CustomerType::Individual);
    assert!(c.is_active());
    assert_eq!(c.external_customer_id, Some("EXT-12345".to_string()));
}

#[test]
fn test_create_business_customer() {
    let customer = Customer::new(
        "Acme Corp".to_string(),
        CustomerType::Business,
        None,
        Some("contact@acme.com".to_string()),
        None,
    );

    assert!(customer.is_ok());
    let c = customer.unwrap();
    assert_eq!(c.customer_type, CustomerType::Business);
}

#[test]
fn customer_test_invalid_email() {
    let customer = Customer::new(
        "John Doe".to_string(),
        CustomerType::Individual,
        None,
        Some("invalid-email".to_string()),
        None,
    );

    assert!(customer.is_err());
}

#[test]
fn test_customer_status_changes() {
    let mut customer = Customer::new(
        "John Doe".to_string(),
        CustomerType::Individual,
        None,
        Some("john@example.com".to_string()),
        None,
    )
    .unwrap();

    assert!(customer.is_active());

    customer.suspend();
    assert_eq!(customer.status, CustomerStatus::Suspended);

    customer.deactivate();
    assert_eq!(customer.status, CustomerStatus::Inactive);
    assert!(!customer.is_active());

    customer.activate();
    assert!(customer.is_active());
}

#[test]
fn test_update_customer() {
    let mut customer = Customer::new(
        "John Doe".to_string(),
        CustomerType::Individual,
        None,
        Some("john@example.com".to_string()),
        None,
    )
    .unwrap();

    let result = customer.update(
        Some("Jane Doe".to_string()),
        Some("jane@example.com".to_string()),
        Some("+1-555-9999".to_string()),
    );

    assert!(result.is_ok());
    assert_eq!(customer.customer_name, "Jane Doe");
    assert_eq!(customer.email, Some("jane@example.com".to_string()));
    assert_eq!(customer.phone, Some("+1-555-9999".to_string()));
}

#[test]
fn customer_names_and_failed_update() {
    assert_eq!(CustomerType::Business.as_str(), "Business");
    assert_eq!(CustomerType::from_str("Individual").unwrap(), CustomerType::Individual);
    assert!(CustomerType::from_str("Other").is_err());
    assert_eq!(CustomerStatus::from_str("Suspended").unwrap(), CustomerStatus::Suspended);
    assert_eq!(CustomerStatus::Inactive.as_str(), "Inactive");
    let mut c = Customer::new("A".to_string(), CustomerType::Business, None, None, None).unwrap();
    assert!(c.customer_id.starts_with("CUST-"));
    assert!(c.update(Some("B".to_string()), Some("nope".to_string()), None).is_err());
    assert_eq!(c.customer_name, "A");
}
