//! Entities of the game world and the registry that hands out their ids.
//!
//! An entity is nothing but a 64-bit id drawn at random; the registry holds
//! the ids in use, so that no id is handed out twice.
use vstd::prelude::*;
use std::collections::HashSet;
use rand::rngs::ThreadRng;

verus! {

#[verifier::external_type_specification]
#[verifier::external_body]
pub struct ExThreadRng(ThreadRng);

/// Draws a uniformly distributed `u64` from rand's thread-local generator
/// (`rand::Rng::random`).  Nothing is stated of the value: any `u64` may
/// come back, and two calls may give the same value.
#[verifier::external_body]
fn draw_id(rng: &mut ThreadRng) -> u64 {
    rand::Rng::random::<u64>(rng)
}

/// An entity of the game world.
#[derive(Clone, Copy, Debug, PartialEq, Eq, Hash, Structural)]
pub struct Entity(u64);

impl Entity {
    pub closed spec fn spec_id(&self) -> u64 {
        self.0
    }

    /// The entity's id.
    pub fn id(&self) -> (id: u64)
        ensures
            id == self.spec_id(),
    {
        self.0
    }
}

/// Registers `candidate` as the id of a new entity, unless it is taken:
/// `Some` entity with that id, and the id is then in the registry; `None`
/// when the registry held the id already, and the registry is unchanged.
pub fn register_entity(entity_db: &mut HashSet<u64>, candidate: u64) -> (ent: Option<Entity>)
    ensures
        ent is Some <==> !old(entity_db)@.contains(candidate),
        match ent {
            Some(e) => e.spec_id() == candidate && final(entity_db)@ == old(entity_db)@.insert(candidate),
            None => final(entity_db)@ == old(entity_db)@,
        },
{
    if entity_db.insert(candidate) {
        Some(Entity(candidate))
    } else {
        proof {
            assert(old(entity_db)@.insert(candidate) =~= old(entity_db)@);
        }
        None
    }
}

/// Creates an entity with a fresh random id and records the id in the
/// registry, drawing again while the drawn id is taken.  Besides the
/// entity, it returns the ids it drew, in order: every draw but the last
/// hit a taken id and the last one is the entity's; or, when it gives up
/// after `u64::MAX` draws, all of them hit taken ids.
pub fn create_entity_traced(entity_db: &mut HashSet<u64>, rng: &mut ThreadRng) -> (res: (
    Option<Entity>,
    Ghost<Seq<u64>>,
))
    ensures
        ({
            let (ent, draws) = (res.0, res.1@);
            &&& match ent {
                Some(e) => {
                    &&& draws.len() >= 1
                    &&& e.spec_id() == draws.last()
                    &&& !old(entity_db)@.contains(e.spec_id())
                    &&& forall|k: int| 0 <= k < draws.len() - 1 ==> old(entity_db)@.contains(#[trigger] draws[k])
                    &&& final(entity_db)@ == old(entity_db)@.insert(e.spec_id())
                },
                None => {
                    &&& draws.len() == u64::MAX
                    &&& forall|k: int| 0 <= k < draws.len() ==> old(entity_db)@.contains(#[trigger] draws[k])
                    &&& final(entity_db)@ == old(entity_db)@
                },
            }
            &&& old(entity_db)@ == Set::<u64>::empty() ==> ent is Some
        }),
{
    let ghost mut draws: Seq<u64> = Seq::empty();
    let mut attempts: u64 = 0;
    while attempts < u64::MAX
        invariant
            entity_db@ == old(entity_db)@,
            draws.len() == attempts,
            forall|k: int| 0 <= k < draws.len() ==> old(entity_db)@.contains(#[trigger] draws[k]),
            attempts > 0 ==> old(entity_db)@ != Set::<u64>::empty(),
        decreases u64::MAX - attempts,
    {
        let candidate = draw_id(rng);
        let ghost before = draws;
        proof {
            draws = draws.push(candidate);
            assert forall|k: int| 0 <= k < draws.len() - 1 implies old(entity_db)@.contains(#[trigger] draws[k]) by {
                assert(draws[k] == before[k]);
            }
        }
        match register_entity(entity_db, candidate) {
            Some(e) => {
                return (Some(e), Ghost(draws));
            },
            None => {},
        }
        attempts = attempts + 1;
    }
    (None, Ghost(draws))
}

/// Creates an entity with a fresh random id and records the id in the
/// registry.  Ids that are taken are drawn again (see
/// `create_entity_traced`, which also reports the draws); `None`, with the
/// registry unchanged, only after `u64::MAX` draws that all hit taken ids.
/// An empty registry always gets an entity.
pub fn create_entity(entity_db: &mut HashSet<u64>, rng: &mut ThreadRng) -> (ent: Option<Entity>)
    ensures
        match ent {
            Some(e) => {
                &&& !old(entity_db)@.contains(e.spec_id())
                &&& final(entity_db)@ == old(entity_db)@.insert(e.spec_id())
            },
            None => final(entity_db)@ == old(entity_db)@,
        },
        old(entity_db)@ == Set::<u64>::empty() ==> ent is Some,
{
    let (ent, _draws) = create_entity_traced(entity_db, rng);
    ent
}

/// Ids are never handed out twice: two entities created one after the other
/// have different ids, and the registry grows by both.
pub proof fn lemma_created_ids_are_distinct(db: Set<u64>, first: u64, second: u64)
    requires
        db.finite(),
        !db.contains(first),
        !db.insert(first).contains(second),
    ensures
        first != second,
        db.insert(first).insert(second).len() == db.len() + 2,
        db.subset_of(db.insert(first).insert(second)),
{
}

} // verus!
