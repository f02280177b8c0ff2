use nova_ge::entity::{create_entity, create_entity_traced, register_entity};
use std::collections::HashSet;

#[test]
fn fresh_id_is_registered() {
    let mut db = HashSet::new();
    let e = register_entity(&mut db, 17).unwrap();
    assert_eq!(e.id(), 17);
    assert!(db.contains(&17));
    assert_eq!(db.len(), 1);
}

#[test]
fn taken_id_is_refused() {
    let mut db: HashSet<u64> = [5u64, 9].into_iter().collect();
    assert!(register_entity(&mut db, 9).is_none());
    assert_eq!(db.len(), 2);
}

#[test]
fn created_entities_are_distinct_and_recorded() {
    let mut db = HashSet::new();
    let mut rng = rand::rng();
    let a = create_entity(&mut db, &mut rng).unwrap();
    let b = create_entity(&mut db, &mut rng).unwrap();
    assert_ne!(a, b);
    assert_ne!(a.id(), b.id());
    assert!(db.contains(&a.id()) && db.contains(&b.id()));
    assert_eq!(db.len(), 2);
}

#[test]
fn many_entities_never_repeat() {
    let mut db = HashSet::new();
    let mut rng = rand::rng();
    let mut ids = Vec::new();
    for _ in 0..200 {
        ids.push(create_entity(&mut db, &mut rng).unwrap().id());
    }
    let distinct: HashSet<u64> = ids.iter().copied().collect();
    assert_eq!(distinct.len(), 200);
    assert_eq!(db, distinct);
}

#[test]
fn traced_creation_registers_one_fresh_id() {
    let mut db: HashSet<u64> = [1u64, 2, 3].into_iter().collect();
    let mut rng = rand::rng();
    let (ent, _draws) = create_entity_traced(&mut db, &mut rng);
    let e = ent.unwrap();
    assert!(![1u64, 2, 3].contains(&e.id()));
    assert_eq!(db.len(), 4);
    assert!(db.contains(&e.id()));
}
