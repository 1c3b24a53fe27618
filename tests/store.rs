use visdata_rebac::config::{is_enterprise_enabled, DexConfig, OpenFGAConfig, SSOProviderType};
use visdata_rebac::error::Error;
use visdata_rebac::id::generate_id;
use visdata_rebac::identity::StringOrVec;
use visdata_rebac::store::{
    chunk_tuples, collect_keys, filter_tuples, find_store, next_page, read_request, split_filter,
    store_endpoint, write_request, BATCH_SIZE,
};
use visdata_rebac::types::{Store, Tuple, TupleKey, TupleKeyFilter};

fn tuple(u: &str, r: &str, o: &str) -> Tuple {
    Tuple { key: TupleKey::new(u, r, o), timestamp: None }
}

#[test]
fn test_tuple_key() {
    let key = TupleKey::new("user:alice", "viewer", "document:doc1");
    assert_eq!(key.user, "user:alice");
    assert_eq!(key.relation, "viewer");
    assert_eq!(key.object, "document:doc1");
}

#[test]
fn test_config_default() {
    let config = DexConfig::default();
    assert_eq!(config.grpc_url, "http://localhost:5557");
    assert!(config.native_login_enabled);
}

#[test]
fn test_is_enterprise_enabled() {
    assert!(is_enterprise_enabled());
}

#[test]
fn test_generate_id() {
    let id1 = generate_id();
    let id2 = generate_id();
    assert_ne!(id1, id2);
    assert_eq!(id1.len(), 27);
}

#[test]
fn memory_filter_matches_every_given_field() {
    let ts = vec![
        tuple("user:a", "member", "group:o_g"),
        tuple("user:a", "assigned", "role:o_r"),
        tuple("user:b", "member", "group:o_g"),
    ];
    let f = TupleKeyFilter { user: Some("user:a".to_string()), relation: None, object: None };
    let got = filter_tuples(ts.clone(), &f);
    assert_eq!(got.len(), 2);
    let f = TupleKeyFilter { user: Some("user:a".to_string()), relation: Some("member".to_string()), object: None };
    let got = filter_tuples(ts.clone(), &f);
    assert_eq!(got.len(), 1);
    assert_eq!(got[0].key.object, "group:o_g");
    let got = filter_tuples(ts, &TupleKeyFilter::default());
    assert_eq!(got.len(), 3);
}

#[test]
fn reads_without_object_are_filtered_here() {
    let (api, mem) = split_filter(Some(TupleKeyFilter::on_user("user:a")));
    assert!(api.is_none() && mem.is_some());
    let (api, mem) = split_filter(Some(TupleKeyFilter::on_object("org:o")));
    assert!(api.is_some() && mem.is_none());
    let (api, mem) = split_filter(None);
    assert!(api.is_none() && mem.is_none());
    let req = read_request(&api, &Some("tok".to_string()));
    assert_eq!(req.page_size, Some(100));
    assert_eq!(req.continuation_token.as_deref(), Some("tok"));
}

#[test]
fn pagination_stops_on_missing_or_empty_token() {
    assert_eq!(next_page(None), None);
    assert_eq!(next_page(Some(String::new())), None);
    assert_eq!(next_page(Some("t".to_string())), Some("t".to_string()));
}

#[test]
fn empty_writes_make_no_request() {
    assert!(write_request(vec![], vec![], &None).is_none());
    let req = write_request(vec![TupleKey::new("a", "b", "c")], vec![], &Some("m".to_string())).unwrap();
    assert_eq!(req.writes.unwrap().tuple_keys.len(), 1);
    assert!(req.deletes.is_none());
    assert_eq!(req.authorization_model_id.as_deref(), Some("m"));
}

#[test]
fn endpoints_need_a_store() {
    let cfg = OpenFGAConfig::new();
    assert!(matches!(store_endpoint(&cfg, "/check"), Err(Error::StoreNotFound)));
    let cfg = cfg.with_store_id("s1").with_api_url("http://fga:8080");
    assert_eq!(store_endpoint(&cfg, "/check").unwrap(), "http://fga:8080/stores/s1/check");
}

#[test]
fn bootstrap_helpers() {
    let stores = vec![
        Store { id: "1".into(), name: "a".into(), created_at: None, updated_at: None },
        Store { id: "2".into(), name: "openobserve".into(), created_at: None, updated_at: None },
        Store { id: "3".into(), name: "openobserve".into(), created_at: None, updated_at: None },
    ];
    assert_eq!(find_store(&stores, "openobserve"), Some("2".to_string()));
    assert_eq!(find_store(&stores, "zzz"), None);
    let tuples: Vec<TupleKey> = (0..120).map(|i| TupleKey::new("u", "r", &format!("o{}", i))).collect();
    let chunks = chunk_tuples(&tuples, BATCH_SIZE);
    let sizes: Vec<usize> = chunks.iter().map(|c| c.len()).collect();
    assert_eq!(sizes, vec![50, 50, 20]);
    assert_eq!(chunks[2][19].object, "o119");
    assert!(chunk_tuples(&vec![], BATCH_SIZE).is_empty());
}

#[test]
fn keys_of_two_reads() {
    let a = vec![tuple("x", "y", "z")];
    let b = vec![tuple("p", "q", "r"), tuple("s", "t", "u")];
    let keys = collect_keys(&a, &b);
    let objs: Vec<&str> = keys.iter().map(|k| k.object.as_str()).collect();
    assert_eq!(objs, vec!["z", "r", "u"]);
}

#[test]
fn error_statuses_and_messages() {
    assert_eq!(Error::NotInitialized("x".into()).status_code(), 503);
    assert_eq!(Error::GroupNotFound("g".into()).status_code(), 404);
    assert_eq!(Error::PermissionDenied("p".into()).status_code(), 403);
    assert_eq!(Error::DuplicateEntry("d".into()).status_code(), 409);
    assert_eq!(Error::Validation("v".into()).status_code(), 400);
    assert_eq!(Error::StoreNotFound.status_code(), 500);
    assert_eq!(Error::RoleNotFound("dev".into()).message(), "Role not found: dev");
    assert_eq!(Error::StoreNotFound.message(), "OpenFGA store not found");
}

#[test]
fn config_builders_and_validation() {
    let cfg = OpenFGAConfig::new().with_store_name("s").with_model_id("m");
    assert_eq!(cfg.store_name, "s");
    assert_eq!(cfg.model_id.as_deref(), Some("m"));
    assert_eq!(cfg.timeout_seconds, 30);
    let dex = DexConfig::new("http://d").with_issuer("http://i").with_client("c", "s").with_redirect_uri("http://r");
    assert!(dex.validate().is_ok());
    assert_eq!(DexConfig::new("").validate(), Err("Dex gRPC URL is required".to_string()));
    assert_eq!(
        DexConfig::new("g").with_client("", "").validate(),
        Err("OAuth2 client ID is required".to_string())
    );
    assert_eq!(SSOProviderType::from_str("OIDC"), Ok(SSOProviderType::OIDC));
    assert!(SSOProviderType::from_str("saml").is_err());
    assert_eq!(SSOProviderType::LDAP.name(), "ldap");
}

#[test]
fn audience_contains() {
    assert!(StringOrVec::Single("a".into()).contains("a"));
    assert!(!StringOrVec::Single("a".into()).contains("b"));
    assert!(StringOrVec::Multiple(vec!["x".into(), "y".into()]).contains("y"));
    assert!(!StringOrVec::Multiple(vec![]).contains("y"));
}
