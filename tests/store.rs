use resourceable::error::ResourceError;
use resourceable::page::Page;
use resourceable::store::MemoryStore;

#[derive(Clone, Debug, PartialEq)]
struct Spaceship {
    num_thrusters: u8,
    name: String,
}

fn ship(num_thrusters: u8, name: &str) -> Spaceship {
    Spaceship { num_thrusters, name: name.to_string() }
}

fn fleet() -> MemoryStore<Spaceship> {
    let mut s = MemoryStore::new();
    assert_eq!(s.create(ship(4, "SS Small")).map(|e| e.0), Ok(1));
    assert_eq!(s.create(ship(35, "Thrusty McThrust")).map(|e| e.0), Ok(2));
    s
}

#[test]
fn spaceship_scenario() {
    let mut s = fleet();
    assert_eq!(s.read_by_id(1), Ok(&ship(4, "SS Small")));
    assert_eq!(s.create(ship(2, "New Ship")), Ok(&(3, ship(2, "New Ship"))));
    assert_eq!(s.read_by_id(3), Ok(&ship(2, "New Ship")));
    assert_eq!(s.remove(2), Ok(ship(35, "Thrusty McThrust")));
    assert_eq!(s.read_by_id(2), Err(ResourceError::NotFound));
    assert_eq!(s.len(), 2);
}

#[test]
fn created_resource_reads_back() {
    let mut s: MemoryStore<Spaceship> = MemoryStore::new();
    let created = s.create(ship(8, "Round Trip")).unwrap().clone();
    assert_eq!(created, (1, ship(8, "Round Trip")));
    let id = created.0;
    assert_eq!(s.read_by_id(id), Ok(&ship(8, "Round Trip")));
}

#[test]
fn next_identifier_is_one_above_the_largest() {
    let mut s = fleet();
    assert_eq!(s.remove(1), Ok(ship(4, "SS Small")));
    assert_eq!(s.create(ship(1, "A")).map(|e| e.0), Ok(3));
    assert_eq!(s.remove(3), Ok(ship(1, "A")));
    assert_eq!(s.create(ship(1, "B")).map(|e| e.0), Ok(3));
}

#[test]
fn removing_a_missing_identifier_fails() {
    let mut s = fleet();
    assert_eq!(s.remove(7), Err(ResourceError::NotFound));
    assert_eq!(s.len(), 2);
    let mut empty: MemoryStore<Spaceship> = MemoryStore::new();
    assert_eq!(empty.remove(1), Err(ResourceError::NotFound));
}

#[test]
fn updating_replaces_or_fails() {
    let mut s = fleet();
    assert_eq!(s.update(5, ship(1, "Ghost")), Err(ResourceError::NotFound));
    assert_eq!(s.read_by_id(5), Err(ResourceError::NotFound));
    assert_eq!(s.read_by_id(2), Ok(&ship(35, "Thrusty McThrust")));
    assert_eq!(s.update(2, ship(36, "Thrustier")), Ok(&ship(36, "Thrustier")));
    assert_eq!(s.read_by_id(2), Ok(&ship(36, "Thrustier")));
    assert_eq!(s.read_by_id(1), Ok(&ship(4, "SS Small")));
}

#[test]
fn paged_reads_follow_size_and_offset() {
    let mut s = fleet();
    assert_eq!(s.create(ship(3, "Third")).map(|e| e.0), Ok(3));
    let all = s.read_paged(Page::default());
    let ids: Vec<i32> = all.iter().map(|e| e.0).collect();
    assert_eq!(ids, vec![1, 2, 3]);
    let mid = s.read_paged(Page { size: 1, offset: 1 });
    assert_eq!(mid.len(), 1);
    assert_eq!(mid[0], &(2, ship(35, "Thrusty McThrust")));
    assert!(s.read_paged(Page { size: 5, offset: 3 }).is_empty());
    assert!(s.read_paged(Page { size: 0, offset: 0 }).is_empty());
    let empty: MemoryStore<Spaceship> = MemoryStore::new();
    assert!(empty.read_paged(Page::default()).is_empty());
}
