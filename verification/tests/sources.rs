use tms_provider::errors::SourceError;
use tms_provider::sources::file::{FileSource, ResourcesData};
use tms_provider::sources::null::NullSource;
use tms_provider::sources::{Resource, Resources, Source};

fn resource(id: &str, name: &str) -> Resource {
    Resource {
        resource_id: id.to_string(),
        name: name.to_string(),
        url: format!("https://example.org/{id}"),
        description: format!("the {name} resource"),
    }
}

fn sample_data() -> ResourcesData {
    ResourcesData::new(
        vec![
            ("r1".to_string(), resource("r1", "one")),
            ("r2".to_string(), resource("r2", "two")),
            ("r3".to_string(), resource("r3", "three")),
            // the same record under a second key
            ("r1-alias".to_string(), resource("r1", "one")),
        ],
        vec!["r2".to_string(), "r1".to_string()],
        vec![
            ("alice".to_string(), vec!["r3".to_string(), "r2".to_string()]),
            ("bob".to_string(), vec!["r1-alias".to_string(), "r3".to_string(), "r3".to_string()]),
            ("carol".to_string(), vec![]),
            ("dave".to_string(), vec!["r9".to_string()]),
        ],
    )
    .expect("keys are unique")
}

fn names(list: &Resources) -> Vec<String> {
    list.resources.iter().map(|r| r.name.clone()).collect()
}

#[test]
fn anonymous_gets_generally_available_in_order() {
    let source = FileSource::new(sample_data());
    let list = source.get_resources(None).ok().unwrap();
    assert_eq!(names(&list), vec!["two", "one"]);
}

#[test]
fn account_resources_follow_the_shared_ones_without_repeats() {
    let source = FileSource::new(sample_data());
    let list = source.get_resources(Some("alice".to_string())).ok().unwrap();
    assert_eq!(names(&list), vec!["two", "one", "three"]);
    assert_eq!(list.resources[2].resource_id, "r3");
    assert_eq!(list.resources[2].url, "https://example.org/r3");
    assert_eq!(list.resources[2].description, "the three resource");
}

#[test]
fn equal_records_under_two_keys_are_listed_once() {
    let source = FileSource::new(sample_data());
    let list = source.get_resources(Some("bob".to_string())).ok().unwrap();
    assert_eq!(names(&list), vec!["two", "one", "three"]);
}

#[test]
fn account_with_no_own_resources_gets_the_shared_ones() {
    let source = FileSource::new(sample_data());
    let list = source.get_resources(Some("carol".to_string())).ok().unwrap();
    assert_eq!(names(&list), vec!["two", "one"]);
}

#[test]
fn unknown_account_is_refused() {
    let source = FileSource::new(sample_data());
    match source.get_resources(Some("mallory".to_string())) {
        Err(SourceError::AccountNotFound(a)) => assert_eq!(a, "mallory"),
        other => panic!("unexpected: {other:?}"),
    }
}

#[test]
fn unknown_resource_is_reported() {
    let source = FileSource::new(sample_data());
    match source.get_resources(Some("dave".to_string())) {
        Err(SourceError::ResourceNotFound(id)) => assert_eq!(id, "r9"),
        other => panic!("unexpected: {other:?}"),
    }
}

#[test]
fn unknown_account_comes_before_unknown_resource() {
    let data = ResourcesData::new(vec![], vec!["missing".to_string()], vec![]).unwrap();
    let source = FileSource::new(data);
    match source.get_resources(Some("nobody".to_string())) {
        Err(SourceError::AccountNotFound(a)) => assert_eq!(a, "nobody"),
        other => panic!("unexpected: {other:?}"),
    }
    match source.get_resources(None) {
        Err(SourceError::ResourceNotFound(id)) => assert_eq!(id, "missing"),
        other => panic!("unexpected: {other:?}"),
    }
}

#[test]
fn first_missing_identifier_is_reported() {
    let data = ResourcesData::new(
        vec![("a".to_string(), resource("a", "A"))],
        vec!["a".to_string(), "x".to_string(), "y".to_string()],
        vec![],
    )
    .unwrap();
    match FileSource::new(data).get_resources(None) {
        Err(SourceError::ResourceNotFound(id)) => assert_eq!(id, "x"),
        other => panic!("unexpected: {other:?}"),
    }
}

#[test]
fn repeated_keys_are_refused() {
    let repeated_resource = ResourcesData::new(
        vec![("a".to_string(), resource("a", "A")), ("a".to_string(), resource("a", "B"))],
        vec![],
        vec![],
    );
    assert!(repeated_resource.is_none());
    let repeated_account = ResourcesData::new(
        vec![],
        vec![],
        vec![("u".to_string(), vec![]), ("u".to_string(), vec![])],
    );
    assert!(repeated_account.is_none());
}

#[test]
fn empty_data_lists_nothing() {
    let source = FileSource::new(ResourcesData::default());
    assert!(source.get_resources(None).ok().unwrap().resources.is_empty());
    assert!(matches!(
        source.get_resources(Some("x".to_string())),
        Err(SourceError::AccountNotFound(_))
    ));
}

#[test]
fn null_source_lists_nothing_for_anyone() {
    let source = NullSource;
    assert!(source.get_resources(None).ok().unwrap().resources.is_empty());
    assert!(source.get_resources(Some("alice".to_string())).ok().unwrap().resources.is_empty());
}

#[test]
fn shared_resources_are_a_prefix_of_every_account_list() {
    let source = FileSource::new(sample_data());
    let anonymous = names(&source.get_resources(None).ok().unwrap());
    for account in ["alice", "bob", "carol"] {
        let with_account = names(&source.get_resources(Some(account.to_string())).ok().unwrap());
        assert_eq!(&with_account[..anonymous.len()], &anonymous[..]);
    }
}

#[test]
fn resource_copy_and_comparison() {
    let r = resource("r1", "one");
    let c = r.duplicate();
    assert!(r.same_as(&c));
    assert!(!r.same_as(&resource("r1", "uno")));
    assert!(Resources::default().resources.is_empty());
}
