use provenance_ledger::identity::Identity;
use provenance_ledger::model::Error;
use provenance_ledger::model::Material;
use provenance_ledger::model::Product;
use provenance_ledger::model::TimelineEvent;
use provenance_ledger::model::TransferRequest;
use provenance_ledger::store::AppendPolicy;
use provenance_ledger::store::ProvenanceStore;

fn ident(tag: u8) -> Identity {
    Identity::from_bytes(vec![tag, 1])
}

fn sample_product(id: &str, owner: &Identity) -> Product {
    Product {
        id: id.to_string(),
        name: "Organic Cotton T-Shirt".to_string(),
        description: "Made from 100% organic cotton".to_string(),
        manufacturer: owner.clone(),
        status: "In Production".to_string(),
        ethical_score: 85,
        materials: vec![Material {
            name: "Organic Cotton".to_string(),
            percentage: 100,
            source: "India".to_string(),
        }],
        certifications: vec!["GOTS Certified".to_string()],
        timeline: vec![],
    }
}

fn transfer_to_warehouse(recipient: &Identity) -> TransferRequest {
    TransferRequest {
        product_id: "1".to_string(),
        recipient: recipient.clone(),
        location: "Warehouse X".to_string(),
        notes: String::new(),
    }
}

#[test]
fn create_and_get_product() {
    let a = ident(1);
    let mut store = ProvenanceStore::new(AppendPolicy::OwnerGated);
    let r = store.create_product(&a, sample_product("1", &a));
    assert_eq!(r, Ok("Product created successfully".to_string()));
    let p = store.get_product(&"1".to_string()).unwrap();
    assert_eq!(p.id, "1");
    assert_eq!(p.name, "Organic Cotton T-Shirt");
    assert_eq!(p.status, "In Production");
    assert_eq!(p.ethical_score, 85);
    assert!(p.manufacturer.same_as(&a));
    assert_eq!(p.materials.len(), 1);
    assert_eq!(p.materials[0].name, "Organic Cotton");
    assert_eq!(p.materials[0].percentage, 100);
    assert_eq!(p.certifications, vec!["GOTS Certified".to_string()]);
    assert!(p.timeline.is_empty());
}

#[test]
fn transfer_by_owner_appends_one_event() {
    let a = ident(1);
    let b = ident(2);
    let mut store = ProvenanceStore::new(AppendPolicy::OwnerGated);
    store.create_product(&a, sample_product("1", &a)).unwrap();
    let r = store.transfer_product(&a, transfer_to_warehouse(&b), 42);
    assert_eq!(r, Ok("Product transferred successfully".to_string()));
    let p = store.get_product(&"1".to_string()).unwrap();
    assert_eq!(p.status, "Transferred to Warehouse X");
    // In this variant a transfer reassigns the status, never the holder.
    assert!(p.manufacturer.same_as(&a));
    let history = store.get_history(&"1".to_string());
    assert_eq!(history.len(), 1);
    assert_eq!(history[0].location, "Warehouse X");
    assert_eq!(history[0].event, "Transfer");
    assert_eq!(history[0].date, "42");
}

#[test]
fn transfer_by_non_owner_rejected() {
    let a = ident(1);
    let b = ident(2);
    let c = ident(3);
    let mut store = ProvenanceStore::new(AppendPolicy::OwnerGated);
    store.create_product(&a, sample_product("1", &a)).unwrap();
    let r = store.transfer_product(&c, transfer_to_warehouse(&b), 42);
    assert_eq!(r, Err(Error::Unauthorized));
    let p = store.get_product(&"1".to_string()).unwrap();
    assert_eq!(p.status, "In Production");
    assert!(p.manufacturer.same_as(&a));
    assert_eq!(store.get_history(&"1".to_string()).len(), 0);
}

#[test]
fn duplicate_create_rejected() {
    let a = ident(1);
    let mut store = ProvenanceStore::new(AppendPolicy::OwnerGated);
    assert!(store.create_product(&a, sample_product("1", &a)).is_ok());
    let r = store.create_product(&a, sample_product("1", &a));
    assert_eq!(r, Err(Error::InvalidInput));
    let all = store.get_products();
    assert_eq!(all.len(), 1);
    assert_eq!(all[0].id, "1");
}

#[test]
fn anonymous_create_rejected() {
    let anon = Identity::anonymous();
    let a = ident(1);
    let mut store = ProvenanceStore::new(AppendPolicy::OwnerGated);
    let r = store.create_product(&anon, sample_product("1", &a));
    assert_eq!(r, Err(Error::Unauthorized));
    assert!(store.get_products().is_empty());
}

#[test]
fn unknown_id_lookup_symmetry() {
    let store = ProvenanceStore::new(AppendPolicy::OwnerGated);
    let missing = "no-such-id".to_string();
    let r = store.get_product(&missing);
    assert_eq!(r.err().unwrap(), Error::ProductNotFound);
    // The history of an unknown product is a soft miss: empty, not an error.
    assert!(store.get_history(&missing).is_empty());
}

#[test]
fn transfer_unknown_product_not_found() {
    let b = ident(2);
    let c = ident(3);
    let mut store = ProvenanceStore::new(AppendPolicy::OwnerGated);
    let r = store.transfer_product(&c, transfer_to_warehouse(&b), 42);
    assert_eq!(r, Err(Error::ProductNotFound));
}

#[test]
fn append_event_by_owner() {
    let a = ident(1);
    let mut store = ProvenanceStore::new(AppendPolicy::OwnerGated);
    store.create_product(&a, sample_product("1", &a)).unwrap();
    let ev = TimelineEvent {
        date: "2024-03-16".to_string(),
        event: "Quality Check".to_string(),
        location: "Dhaka".to_string(),
    };
    let r = store.append_event(&a, &"1".to_string(), ev);
    assert_eq!(r, Ok(()));
    let history = store.get_history(&"1".to_string());
    assert_eq!(history.len(), 1);
    assert_eq!(history[0].date, "2024-03-16");
    assert_eq!(history[0].event, "Quality Check");
    assert_eq!(history[0].location, "Dhaka");
}

#[test]
fn append_event_by_stranger_rejected_when_gated() {
    let a = ident(1);
    let c = ident(3);
    let mut store = ProvenanceStore::new(AppendPolicy::OwnerGated);
    store.create_product(&a, sample_product("1", &a)).unwrap();
    let ev = TimelineEvent {
        date: "2024-03-16".to_string(),
        event: "Quality Check".to_string(),
        location: "Dhaka".to_string(),
    };
    let r = store.append_event(&c, &"1".to_string(), ev);
    assert_eq!(r, Err(Error::Unauthorized));
    assert!(store.get_history(&"1".to_string()).is_empty());
}

#[test]
fn append_event_by_stranger_allowed_when_open() {
    let a = ident(1);
    let c = ident(3);
    let mut store = ProvenanceStore::new(AppendPolicy::Open);
    store.create_product(&a, sample_product("1", &a)).unwrap();
    let ev = TimelineEvent {
        date: "2024-03-16".to_string(),
        event: "Quality Check".to_string(),
        location: "Dhaka".to_string(),
    };
    let r = store.append_event(&c, &"1".to_string(), ev);
    assert_eq!(r, Ok(()));
    assert_eq!(store.get_history(&"1".to_string()).len(), 1);
}

#[test]
fn append_event_unknown_product_not_found() {
    let a = ident(1);
    let mut store = ProvenanceStore::new(AppendPolicy::OwnerGated);
    let ev = TimelineEvent {
        date: "2024-03-16".to_string(),
        event: "Quality Check".to_string(),
        location: "Dhaka".to_string(),
    };
    let r = store.append_event(&a, &"1".to_string(), ev);
    assert_eq!(r, Err(Error::ProductNotFound));
}

#[test]
fn history_is_append_only_across_mutations() {
    let a = ident(1);
    let b = ident(2);
    let mut store = ProvenanceStore::new(AppendPolicy::OwnerGated);
    store.create_product(&a, sample_product("1", &a)).unwrap();
    let mut snapshots: Vec<Vec<(String, String, String)>> = Vec::new();
    let snap = |store: &ProvenanceStore| -> Vec<(String, String, String)> {
        store
            .get_history(&"1".to_string())
            .iter()
            .map(|e| (e.date.clone(), e.event.clone(), e.location.clone()))
            .collect()
    };
    snapshots.push(snap(&store));
    store.transfer_product(&a, transfer_to_warehouse(&b), 42).unwrap();
    snapshots.push(snap(&store));
    let ev = TimelineEvent {
        date: "2024-03-16".to_string(),
        event: "Quality Check".to_string(),
        location: "Dhaka".to_string(),
    };
    store.append_event(&a, &"1".to_string(), ev).unwrap();
    snapshots.push(snap(&store));
    store
        .transfer_product(&a, transfer_to_warehouse(&b), 43)
        .unwrap();
    snapshots.push(snap(&store));
    for w in snapshots.windows(2) {
        let earlier = &w[0];
        let later = &w[1];
        assert!(earlier.len() < later.len());
        assert_eq!(earlier.as_slice(), &later[..earlier.len()]);
    }
}

#[test]
fn products_listed_in_insertion_order() {
    let a = ident(1);
    let mut store = ProvenanceStore::new(AppendPolicy::OwnerGated);
    store.create_product(&a, sample_product("1", &a)).unwrap();
    store.create_product(&a, sample_product("2", &a)).unwrap();
    store.create_product(&a, sample_product("3", &a)).unwrap();
    let all = store.get_products();
    let ids: Vec<&str> = all.iter().map(|p| p.id.as_str()).collect();
    assert_eq!(ids, vec!["1", "2", "3"]);
}
