use provenance_ledger::auth::authorize_create;
use provenance_ledger::auth::authorize_mutation;
use provenance_ledger::identity::Identity;
use provenance_ledger::model::Error;
use provenance_ledger::model::Material;
use provenance_ledger::model::Product;
use provenance_ledger::token::derive_product_id;
use provenance_ledger::token::render_u64;

fn ident(tag: u8) -> Identity {
    Identity::from_bytes(vec![tag, 1])
}

fn owned_product(owner: &Identity) -> Product {
    Product {
        id: "1".to_string(),
        name: "Organic Cotton T-Shirt".to_string(),
        description: "Made from 100% organic cotton".to_string(),
        manufacturer: owner.clone(),
        status: "In Production".to_string(),
        ethical_score: 85,
        materials: vec![Material {
            name: "Organic Cotton".to_string(),
            percentage: 100,
            source: "India".to_string(),
        }],
        certifications: vec!["GOTS Certified".to_string()],
        timeline: vec![],
    }
}

#[test]
fn anonymous_identity_is_recognized() {
    let anon = Identity::anonymous();
    assert!(anon.check_anonymous());
    assert_eq!(anon.raw_bytes().as_slice(), &[4u8]);
    assert!(!ident(1).check_anonymous());
    // A longer identity starting with the anonymous tag byte is not anonymous.
    assert!(!Identity::from_bytes(vec![4, 4]).check_anonymous());
}

#[test]
fn identity_equality_is_byte_for_byte() {
    let a = ident(1);
    assert!(a.same_as(&ident(1)));
    assert!(!a.same_as(&ident(2)));
    assert!(!a.same_as(&Identity::from_bytes(vec![1])));
    assert!(a.same_as(&a.clone()));
}

#[test]
fn create_gate_rejects_only_anonymous() {
    assert_eq!(authorize_create(&Identity::anonymous()), Err(Error::Unauthorized));
    assert_eq!(authorize_create(&ident(1)), Ok(()));
}

#[test]
fn mutation_gate_requires_current_holder() {
    let a = ident(1);
    let product = owned_product(&a);
    assert_eq!(authorize_mutation(&a, &product), Ok(()));
    assert_eq!(authorize_mutation(&ident(2), &product), Err(Error::Unauthorized));
}

#[test]
fn decimal_rendering_exact_values() {
    assert_eq!(render_u64(0), "0");
    assert_eq!(render_u64(7), "7");
    assert_eq!(render_u64(42), "42");
    assert_eq!(render_u64(1234567890), "1234567890");
    assert_eq!(render_u64(u64::MAX), "18446744073709551615");
}

#[test]
fn derived_id_exact_value() {
    let id = derive_product_id("Organic Cotton T-Shirt", 1700000000);
    assert_eq!(id, "4f4f1199bfe99c9c");
    assert_eq!(derive_product_id("", 0), "af63bd4c8601b7df");
}

#[test]
fn derived_id_is_fixed_width_and_deterministic() {
    let one = derive_product_id("Organic Cotton T-Shirt", 1700000000);
    let two = derive_product_id("Organic Cotton T-Shirt", 1700000000);
    assert_eq!(one, two);
    assert_eq!(one.len(), 16);
    assert!(one.chars().all(|c| c.is_ascii_hexdigit()));
    // A different creation timestamp or name yields a different token.
    assert_ne!(one, derive_product_id("Organic Cotton T-Shirt", 1700000001));
    assert_ne!(one, derive_product_id("Organic Cotton T-Shirts", 1700000000));
}
