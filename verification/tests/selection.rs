use image_job::artifacts::{select, ArtifactSet, SelectionError};

fn set_of(entries: Vec<(&str, Vec<u8>)>) -> ArtifactSet {
    let mut set = ArtifactSet::new();
    for (name, bytes) in entries {
        set.insert(name.to_string(), bytes);
    }
    set
}

#[test]
fn select_returns_first_non_empty_artifact() {
    let set = set_of(vec![("a", vec![]), ("b", vec![1, 2, 3]), ("c", vec![])]);
    assert_eq!(select(&set), Ok(vec![1, 2, 3]));
}

#[test]
fn select_fails_when_every_artifact_is_empty() {
    let set = set_of(vec![("a", vec![]), ("b", vec![])]);
    assert_eq!(select(&set), Err(SelectionError::NoImageProduced));
}

#[test]
fn select_fails_on_the_empty_set() {
    let set = ArtifactSet::new();
    assert_eq!(select(&set), Err(SelectionError::NoImageProduced));
}

#[test]
fn select_takes_the_first_of_several_images() {
    let set = set_of(vec![("z", vec![9]), ("a", vec![1, 2])]);
    assert_eq!(select(&set), Ok(vec![9]));
}

#[test]
fn select_is_the_same_on_every_call() {
    let set = set_of(vec![("a", vec![]), ("b", vec![4, 5]), ("c", vec![6])]);
    assert_eq!(select(&set), select(&set));
}

#[test]
fn insert_keeps_the_order_of_first_binding() {
    let mut set = set_of(vec![("a", vec![1]), ("b", vec![2]), ("c", vec![3])]);
    set.insert("b".to_string(), vec![]);
    assert_eq!(set.len(), 3);
    assert_eq!(set.entry(0).unwrap().name, "a");
    assert_eq!(set.entry(1).unwrap().name, "b");
    assert_eq!(set.entry(1).unwrap().bytes, Vec::<u8>::new());
    assert_eq!(set.entry(2).unwrap().name, "c");
    assert_eq!(set.entry(3), None);
}

#[test]
fn insert_binds_each_name_once() {
    let mut set = ArtifactSet::new();
    set.insert("a".to_string(), vec![]);
    set.insert("a".to_string(), vec![7, 8]);
    assert_eq!(set.len(), 1);
    assert_eq!(set.get("a"), Some(&vec![7, 8]));
    assert_eq!(select(&set), Ok(vec![7, 8]));
}

#[test]
fn get_finds_nothing_under_an_unbound_name() {
    let set = set_of(vec![("a", vec![1])]);
    assert_eq!(set.get("b"), None);
    assert_eq!(set.get(""), None);
}
