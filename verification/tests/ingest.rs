//! Snapshot ingestion: parsing runtime summaries into container records.

use docker_ps::docker::{docker_ps, name, Container, ContainerSummary, State};

fn summary(id: &str, container_name: &str, image: &str, state: &str) -> ContainerSummary {
    ContainerSummary {
        id: Some(id.to_owned()),
        names: Some(vec![container_name.to_owned()]),
        image: Some(image.to_owned()),
        state: Some(state.to_owned()),
    }
}

#[test]
fn name_strips_leading_slash() {
    assert_eq!(name(&Some(vec!["/web".to_owned()])), "web");
    assert_eq!(name(&Some(vec!["/a".to_owned(), "/b".to_owned()])), "a");
}

#[test]
fn name_defaults_when_missing() {
    assert_eq!(name(&None), "Error");
    assert_eq!(name(&Some(vec![])), "Error");
    assert_eq!(name(&Some(vec!["".to_owned()])), "Error");
}

#[test]
fn ingest_builds_records() {
    let mut store: Vec<Container> = Vec::new();
    let id = "abc123def456abc123def456abc123def456";
    docker_ps(&mut store, &vec![summary(id, "/web", "nginx:latest", "running")]);
    assert_eq!(store.len(), 1);
    assert_eq!(store[0].name, "\u{1F197} web");
    assert_eq!(store[0].id, id);
    assert_eq!(store[0].image, "nginx:latest");
    assert_eq!(store[0].state, State::Running);
    assert_eq!(store[0].icon, Some("./docker-icon.png".to_owned()));
}

#[test]
fn ingest_defaults_missing_fields() {
    let mut store: Vec<Container> = Vec::new();
    let raw = ContainerSummary { id: Some("x1".to_owned()), names: None, image: None, state: None };
    docker_ps(&mut store, &vec![raw]);
    assert_eq!(store.len(), 1);
    assert_eq!(store[0].name, "\u{2620} Error");
    assert_eq!(store[0].image, "");
    assert_eq!(store[0].state, State::Dead);
}

#[test]
fn ingest_replaces_wholesale() {
    let mut store: Vec<Container> = Vec::new();
    docker_ps(&mut store, &vec![summary("a1", "/old", "img", "running")]);
    docker_ps(&mut store, &vec![summary("b2", "/new", "img", "paused")]);
    assert_eq!(store.len(), 1);
    assert_eq!(store[0].id, "b2");
    assert_eq!(store[0].state, State::Paused);
}

#[test]
fn ingest_empty_listing_empties_store() {
    let mut store: Vec<Container> = Vec::new();
    docker_ps(&mut store, &vec![summary("a1", "/old", "img", "running")]);
    docker_ps(&mut store, &vec![]);
    assert!(store.is_empty());
}
