use stocks_api::suppliers::{
    CreateSupplierRequest, FieldError, FieldRule, SupplierField, UpdateSupplierRequest,
};

fn create(name: &str, email: &str, phone: &str, address: &str) -> CreateSupplierRequest {
    CreateSupplierRequest {
        name_sup: name.to_string(),
        email_sup: email.to_string(),
        phone_sup: phone.to_string(),
        address_sup: address.to_string(),
    }
}

#[test]
fn valid_creation_passes() {
    let r = create("Acme", "contact@acme.com", "+33 1 23 45 67 89", "1 rue de Paris");
    assert!(r.validate().is_ok());
}

#[test]
fn creation_reports_every_broken_rule_in_order() {
    let r = create("", "not-an-email", "012345678901234567890", "");
    let errors = r.validate().unwrap_err();
    assert_eq!(
        errors,
        vec![
            FieldError { field: SupplierField::NameSup, rule: FieldRule::Length { min: 1, max: 255 } },
            FieldError { field: SupplierField::EmailSup, rule: FieldRule::Email },
            FieldError { field: SupplierField::PhoneSup, rule: FieldRule::Length { min: 1, max: 20 } },
            FieldError {
                field: SupplierField::AddressSup,
                rule: FieldRule::Length { min: 1, max: 500 }
            },
        ]
    );
}

#[test]
fn lengths_count_characters() {
    // 255 two-byte characters are within the name bound.
    let name: String = std::iter::repeat('é').take(255).collect();
    assert!(create(&name, "a@b.fr", "1", "x").validate().is_ok());
    let name: String = std::iter::repeat('é').take(256).collect();
    let errors = create(&name, "a@b.fr", "1", "x").validate().unwrap_err();
    assert_eq!(errors.len(), 1);
    assert_eq!(errors[0].field, SupplierField::NameSup);
    let phone: String = std::iter::repeat('9').take(20).collect();
    assert!(create("n", "a@b.fr", &phone, "x").validate().is_ok());
}

#[test]
fn email_rule() {
    assert!(create("n", "a@b.fr", "1", "x").validate().is_ok());
    let errors = create("n", "ab.fr", "1", "x").validate().unwrap_err();
    assert_eq!(errors, vec![FieldError { field: SupplierField::EmailSup, rule: FieldRule::Email }]);
    assert!(create("n", "", "1", "x").validate().is_err());
    assert!(create("n", "a@", "1", "x").validate().is_err());
}

#[test]
fn empty_update_passes() {
    let u = UpdateSupplierRequest { name_sup: None, email_sup: None, phone_sup: None, address_sup: None };
    assert!(u.validate().is_ok());
}

#[test]
fn update_checks_present_fields_only() {
    let u = UpdateSupplierRequest {
        name_sup: None,
        email_sup: Some("broken".to_string()),
        phone_sup: Some(String::new()),
        address_sup: None,
    };
    assert_eq!(
        u.validate().unwrap_err(),
        vec![
            FieldError { field: SupplierField::EmailSup, rule: FieldRule::Email },
            FieldError { field: SupplierField::PhoneSup, rule: FieldRule::Length { min: 1, max: 20 } },
        ]
    );
    let u = UpdateSupplierRequest {
        name_sup: Some("New name".to_string()),
        email_sup: Some("x@y.org".to_string()),
        phone_sup: None,
        address_sup: Some("2 avenue".to_string()),
    };
    assert!(u.validate().is_ok());
}

#[test]
fn field_keys() {
    assert_eq!(SupplierField::NameSup.key_text(), "name_sup");
    assert_eq!(SupplierField::EmailSup.key_text(), "email_sup");
    assert_eq!(SupplierField::PhoneSup.key_text(), "phone_sup");
    assert_eq!(SupplierField::AddressSup.key_text(), "address_sup");
}
