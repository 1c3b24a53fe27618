use visdata_rebac::bootstrap::{Bootstrap, BootstrapAction, BootstrapEvent, BootstrapPhase};
use visdata_rebac::types::Store;

fn store(id: &str, name: &str) -> Store {
    Store { id: id.to_string(), name: name.to_string(), created_at: None, updated_at: None }
}

#[test]
fn new_store_is_created_modelled_and_seeded_in_batches() {
    let (mut b, a) = Bootstrap::start("openobserve");
    assert_eq!(a, BootstrapAction::ListStores);
    let a = b.step(BootstrapEvent::StoresListed(vec![store("1", "other")]));
    assert_eq!(a, BootstrapAction::CreateStore("openobserve".to_string()));
    let a = b.step(BootstrapEvent::StoreCreated("s1".to_string()));
    assert_eq!(a, BootstrapAction::GetLatestModel);
    assert!(b.is_new_store);
    let a = b.step(BootstrapEvent::LatestModel(None));
    assert_eq!(a, BootstrapAction::WriteModel);
    let a = b.step(BootstrapEvent::ModelWritten("m1".to_string()));
    assert_eq!(a, BootstrapAction::WriteTuples(0));
    assert_eq!(b.batches.len(), 2);
    assert_eq!(b.batches[0].len(), 50);
    assert_eq!(b.batches[1].len(), 44);
    let a = b.step(BootstrapEvent::TuplesWritten(false));
    assert_eq!(a, BootstrapAction::WriteTuples(1));
    let a = b.step(BootstrapEvent::TuplesWritten(true));
    assert_eq!(a, BootstrapAction::Done);
    assert_eq!(b.phase, BootstrapPhase::Finished);
    assert_eq!(b.store_id, "s1");
    assert_eq!(b.model_id.as_deref(), Some("m1"));
}

#[test]
fn existing_store_with_model_is_left_alone() {
    let (mut b, _) = Bootstrap::start("openobserve");
    let a = b.step(BootstrapEvent::StoresListed(vec![store("7", "openobserve")]));
    assert_eq!(a, BootstrapAction::GetLatestModel);
    assert_eq!(b.store_id, "7");
    let a = b.step(BootstrapEvent::LatestModel(Some("m9".to_string())));
    assert_eq!(a, BootstrapAction::Done);
    assert!(!b.is_new_store);
    assert!(b.batches.is_empty());
    assert_eq!(b.model_id.as_deref(), Some("m9"));
}

#[test]
fn existing_store_without_model_gets_one_but_no_tuples() {
    let (mut b, _) = Bootstrap::start("s");
    b.step(BootstrapEvent::StoresListed(vec![store("7", "s")]));
    assert_eq!(b.step(BootstrapEvent::LatestModel(None)), BootstrapAction::WriteModel);
    assert_eq!(b.step(BootstrapEvent::ModelWritten("m".to_string())), BootstrapAction::Done);
}

#[test]
fn unexpected_events_repeat_the_pending_action() {
    let (mut b, _) = Bootstrap::start("s");
    assert_eq!(b.step(BootstrapEvent::TuplesWritten(true)), BootstrapAction::ListStores);
    assert_eq!(b.phase, BootstrapPhase::ListingStores);
}
