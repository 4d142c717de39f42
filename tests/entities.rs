use korp::commands::{Command, SpawnKind};
use korp::components::{swept_hitbox, Body, Components, Rectangle, Shape, Triangle};
use korp::cosmos::{Cosmos, Executor};
use korp::entity::{Entity, EntityFactory};
use korp::flint::Flint;
use korp::forge::Forge;
use korp::morph::Morph;
use korp::color::Color;
use korp::sparse_set::SparseSet;
use korp::vec2::Vec2;

fn entity(index: u32, generation: u32) -> Entity {
    Entity { index, generation }
}

fn at(x: i16, y: i16) -> Vec2<Flint> {
    Vec2::new(Flint::from_i16(x), Flint::from_i16(y))
}

/// Every stored entity resolves to the component in its own dense slot.
fn assert_consistent(set: &SparseSet<u32>) {
    let (entities, values) = set.iter();
    assert_eq!(entities.len(), values.len());
    assert_eq!(entities.len(), set.len());
    for (i, e) in entities.iter().enumerate() {
        assert_eq!(set.get(e), Some(&values[i]), "entity {:?} in slot {}", e, i);
        assert_eq!(set.entity_at(i), *e);
        assert_eq!(*set.value_at(i), values[i]);
    }
}

#[test]
fn factory_allocates_fresh_indices_then_reuses_last_freed() {
    let mut f = EntityFactory::new();
    let a = f.create();
    let b = f.create();
    let c = f.create();
    assert_eq!((a, b, c), (entity(0, 0), entity(1, 0), entity(2, 0)));
    f.destroy(a);
    f.destroy(c);
    assert_eq!(f.next_index(), 2);
    assert_eq!(f.create(), entity(2, 1));
    assert_eq!(f.create(), entity(0, 1));
    assert_eq!(f.create(), entity(3, 0));
}

#[test]
fn factory_ignores_stale_and_repeated_destroys() {
    let mut f = EntityFactory::new();
    let a = f.create();
    f.destroy(a);
    f.destroy(a);
    f.destroy(entity(7, 0));
    let again = f.create();
    assert_eq!(again, entity(0, 1));
    assert_eq!(f.create(), entity(1, 0));
    f.destroy(a);
    assert_eq!(f.create(), entity(2, 0));
    assert!(f.can_create_exec());
}

#[test]
fn insert_then_get_then_remove() {
    let mut set: SparseSet<u32> = SparseSet::new(16);
    let e = entity(3, 0);
    assert!(set.insert(e, 30));
    assert_eq!(set.get(&e), Some(&30));
    assert_eq!(set.remove(&e), Some(30));
    assert_eq!(set.get(&e), None);
    assert_eq!(set.remove(&e), None);
    assert!(set.is_empty());
}

#[test]
fn insert_replaces_in_place() {
    let mut set: SparseSet<u32> = SparseSet::new(16);
    let e = entity(5, 2);
    set.insert(entity(1, 0), 1);
    set.insert(e, 50);
    set.insert(e, 51);
    assert_eq!(set.len(), 2);
    assert_eq!(set.get(&e), Some(&51));
    let newer = entity(5, 3);
    set.insert(newer, 52);
    assert_eq!(set.len(), 2);
    assert_eq!(set.get(&e), None);
    assert_eq!(set.get(&newer), Some(&52));
    assert_consistent(&set);
}

#[test]
fn insert_beyond_capacity_is_refused() {
    let mut set: SparseSet<u32> = SparseSet::new(4);
    assert!(!set.insert(entity(4, 0), 1));
    assert!(set.insert(entity(3, 0), 1));
    assert_eq!(set.len(), 1);
    assert_eq!(set.get(&entity(4, 0)), None);
    assert_eq!(set.get(&entity(u32::MAX, 0)), None);
}

#[test]
fn lookups_check_the_generation() {
    let mut set: SparseSet<u32> = SparseSet::new(8);
    set.insert(entity(2, 4), 9);
    assert_eq!(set.get(&entity(2, 3)), None);
    assert_eq!(set.get(&entity(2, 5)), None);
    assert_eq!(set.remove(&entity(2, 5)), None);
    assert_eq!(set.get(&entity(2, 4)), Some(&9));
    if let Some(v) = set.get_mut(&entity(2, 4)) {
        *v = 10;
    }
    assert_eq!(set.get(&entity(2, 4)), Some(&10));
    assert!(set.get_mut(&entity(2, 1)).is_none());
}

#[test]
fn removal_keeps_the_table_consistent_in_every_position() {
    for victim in 0..4u32 {
        let mut set: SparseSet<u32> = SparseSet::new(8);
        for i in 0..4u32 {
            set.insert(entity(i, 0), i * 10);
        }
        assert_eq!(set.remove(&entity(victim, 0)), Some(victim * 10));
        assert_consistent(&set);
        assert_eq!(set.len(), 3);
    }
    let mut single: SparseSet<u32> = SparseSet::new(2);
    single.insert(entity(1, 0), 7);
    assert_eq!(single.remove(&entity(1, 0)), Some(7));
    assert_consistent(&single);
    assert!(single.is_empty());
}

#[test]
fn removal_keeps_the_table_consistent_under_random_churn() {
    let mut set: SparseSet<u32> = SparseSet::new(64);
    let mut present = vec![false; 64];
    let mut seed: u64 = 0x9E37_79B9_7F4A_7C15;
    for step in 0..4000u32 {
        seed = seed.wrapping_mul(6364136223846793005).wrapping_add(1442695040888963407);
        let index = ((seed >> 33) % 64) as u32;
        let e = entity(index, 0);
        if (seed >> 20) % 3 == 0 {
            let removed = set.remove(&e);
            assert_eq!(removed.is_some(), present[index as usize]);
            present[index as usize] = false;
        } else {
            set.insert(e, step);
            present[index as usize] = true;
        }
        assert_consistent(&set);
        assert_eq!(set.len(), present.iter().filter(|p| **p).count());
    }
}

#[test]
fn destroyed_handle_does_not_resolve_after_reuse() {
    let mut forge = Forge::new();
    let mut components = Components::new();
    let first = forge.triangle(at(10, 20), &mut components).unwrap();
    assert!(components.bodies.get(&first).is_some());
    forge.destroy(first, &mut components);
    assert!(components.bodies.get(&first).is_none());
    assert!(components.motions.get(&first).is_none());
    let second = forge.rectangle(at(0, 0), &mut components).unwrap();
    assert_eq!(second.index, first.index);
    assert_ne!(second.generation, first.generation);
    assert!(components.bodies.get(&first).is_none());
    assert!(components.motions.get(&first).is_none());
    assert!(components.bodies.get(&second).is_some());
}

#[test]
fn spawned_ships_start_at_rest_facing_up() {
    let mut forge = Forge::new();
    let mut components = Components::new();
    let e = forge.triangle(at(10, 20), &mut components).unwrap();
    let body = *components.bodies.get(&e).unwrap();
    assert_eq!(body.old, body.new);
    assert_eq!(body.new.centroid, at(10, 20));
    assert_eq!(body.new.rotation, at(0, -1));
    assert_eq!(body.new.color, Color::green());
    let motion = *components.motions.get(&e).unwrap();
    assert_eq!(motion.velocity, at(0, 0));
    assert_eq!(motion.acceleration.raw, 85195);
    assert_eq!(motion.speed_maximum.raw, 15 * 65536);
    assert_eq!(motion.speed_minimum.raw, -10 * 65536);
}

#[test]
fn a_tick_commits_then_moves() {
    let mut cosmos = Cosmos::new();
    let spawned = cosmos.update(&[Command::Spawn { kind: SpawnKind::Triangle, centroid: at(100, 100) }]);
    assert_eq!(spawned.len(), 1);
    let ship = spawned[0];
    cosmos.update(&[Command::Accelerate(ship)]);
    let body = *cosmos.components.bodies.get(&ship).unwrap();
    assert_eq!(body.old.centroid, at(100, 100));
    assert_eq!(body.new.centroid.x.raw, 100 * 65536);
    assert!(body.new.centroid.y.raw < 100 * 65536);
    let motion = *cosmos.components.motions.get(&ship).unwrap();
    assert!(motion.velocity.y.raw < 0);
    cosmos.update(&[]);
    let later = *cosmos.components.bodies.get(&ship).unwrap();
    assert_eq!(later.old, body.new);
}

#[test]
fn turning_is_damped_by_drag() {
    let mut cosmos = Cosmos::new();
    let ship = cosmos.update(&[Command::Spawn { kind: SpawnKind::Rectangle, centroid: at(0, 0) }])[0];
    cosmos.update(&[Command::TurnRight(ship)]);
    let m = *cosmos.components.motions.get(&ship).unwrap();
    assert_eq!(m.rotation_speed.raw, 65536 - 13106);
    cosmos.update(&[Command::TurnLeft(ship), Command::TurnLeft(ship)]);
    let m = *cosmos.components.motions.get(&ship).unwrap();
    assert_eq!(m.rotation_speed.raw, 65536 - 13106 - 2 * 65536 + 13106);
    cosmos.destroy(ship);
    assert!(cosmos.components.motions.get(&ship).is_none());
}

#[test]
fn rectangle_hitbox_follows_rotation() {
    let body = Body {
        centroid: at(0, 0),
        rotation: at(0, -1),
        shape: Shape::Rectangle(Rectangle { width: Flint::from_i16(40), height: Flint::from_i16(60) }),
        color: Color::white(),
    };
    let b = body.hitbox();
    assert_eq!((b.x.raw, b.y.raw, b.width.raw, b.height.raw), (-30 * 65536, -20 * 65536, 60 * 65536, 40 * 65536));
    let moved = Body { centroid: at(10, 0), ..body };
    let swept = swept_hitbox(&Morph::new(body, moved)).unwrap();
    assert_eq!((swept.x.raw, swept.width.raw), (-30 * 65536, 70 * 65536));
}

#[test]
fn shape_change_has_no_swept_hitbox() {
    let rect = Body {
        centroid: at(0, 0),
        rotation: at(1, 0),
        shape: Shape::Rectangle(Rectangle { width: Flint::from_i16(2), height: Flint::from_i16(2) }),
        color: Color::red(),
    };
    let tri = Body {
        shape: Shape::Triangle(Triangle { top: at(1, 0), left: at(-1, -1), right: at(-1, 1) }),
        ..rect
    };
    assert!(swept_hitbox(&Morph::new(rect, tri)).is_none());
    let t = tri.hitbox();
    assert_eq!((t.x.raw, t.y.raw, t.width.raw, t.height.raw), (-65536, -65536, 2 * 65536, 2 * 65536));
}

#[test]
fn morph_commit_keeps_the_new_state() {
    let mut m = Morph::new(1u32, 2u32);
    m.commit();
    assert_eq!((m.old, m.new), (2, 2));
    assert_eq!(Morph::one(5u8), Morph::new(5, 5));
}

#[test]
fn colors_pack_red_first() {
    assert_eq!(Color::green().to_u32(), 0x00FF_00FF);
    assert_eq!(u32::from(Color::new(1, 2, 3, 4)), 0x0102_0304);
    assert_eq!(Color::black().to_u32(), 0x0000_00FF);
    assert_eq!(Color::white().to_u32(), 0xFFFF_FFFF);
    assert_eq!(Color::blue().to_u32(), 0x0000_FFFF);
    assert_eq!(Color::red().to_u32(), 0xFF00_00FF);
}

#[test]
fn spawning_past_the_table_capacity_is_refused() {
    let mut forge = Forge::new();
    let mut components = Components::new();
    for i in 0..65535u32 {
        let e = forge.triangle(at(0, 0), &mut components).unwrap();
        assert_eq!(e.index, i);
    }
    assert!(forge.rectangle(at(0, 0), &mut components).is_none());
    assert_eq!(components.bodies.len(), 65535);
    assert_eq!(components.motions.len(), 65535);
    forge.destroy(entity(7, 0), &mut components);
    let reused = forge.rectangle(at(0, 0), &mut components).unwrap();
    assert_eq!(reused, entity(7, 1));
}

#[test]
fn executor_runs_commit_commands_motion() {
    let mut forge = Forge::new();
    let mut components = Components::new();
    let mut executor = Executor::new();
    let spawned = executor.execute(
        &mut components,
        &mut forge,
        &[
            Command::Spawn { kind: SpawnKind::Triangle, centroid: at(1, 2) },
            Command::Spawn { kind: SpawnKind::Rectangle, centroid: at(3, 4) },
            Command::Accelerate(entity(9, 0)),
        ],
    );
    assert_eq!(spawned, vec![entity(0, 0), entity(1, 0)]);
    let ship = spawned[0];
    executor.execute(&mut components, &mut forge, &[Command::Decelerate(ship)]);
    let body = *components.bodies.get(&ship).unwrap();
    assert_eq!(body.old.centroid, at(1, 2));
    assert!(body.new.centroid.y.raw > 2 * 65536);
}

#[test]
fn iteration_follows_insertion_order() {
    let mut set: SparseSet<u32> = SparseSet::new(16);
    for (i, index) in [5u32, 2, 9, 0].iter().enumerate() {
        set.insert(entity(*index, 0), i as u32);
    }
    let (entities, values) = set.iter();
    assert_eq!(entities, &[entity(5, 0), entity(2, 0), entity(9, 0), entity(0, 0)]);
    assert_eq!(values, &[0, 1, 2, 3]);
}

#[test]
fn replacing_keeps_the_dense_position() {
    let mut set: SparseSet<u32> = SparseSet::new(16);
    set.insert(entity(5, 0), 10);
    set.insert(entity(2, 0), 20);
    set.insert(entity(9, 0), 30);
    set.insert(entity(2, 1), 21);
    let (entities, values) = set.iter();
    assert_eq!(entities, &[entity(5, 0), entity(2, 1), entity(9, 0)]);
    assert_eq!(values, &[10, 21, 30]);
}

#[test]
fn removal_moves_the_last_entry_into_the_gap() {
    let mut set: SparseSet<u32> = SparseSet::new(16);
    for index in [1u32, 2, 3, 4] {
        set.insert(entity(index, 0), index * 10);
    }
    set.remove(&entity(2, 0));
    let (entities, values) = set.iter();
    assert_eq!(entities, &[entity(1, 0), entity(4, 0), entity(3, 0)]);
    assert_eq!(values, &[10, 40, 30]);
    set.remove(&entity(3, 0));
    assert_eq!(set.iter().1, &[10, 40]);
}

#[test]
fn writing_through_get_mut_keeps_the_order() {
    let mut set: SparseSet<u32> = SparseSet::new(16);
    for index in [3u32, 1, 2] {
        set.insert(entity(index, 0), index);
    }
    *set.get_mut(&entity(1, 0)).unwrap() = 100;
    let (entities, values) = set.iter();
    assert_eq!(entities, &[entity(3, 0), entity(1, 0), entity(2, 0)]);
    assert_eq!(values, &[3, 100, 2]);
}

#[test]
fn refused_insert_leaves_the_table_as_it_was() {
    let mut set: SparseSet<u32> = SparseSet::new(4);
    set.insert(entity(1, 0), 1);
    set.insert(entity(0, 0), 2);
    assert!(!set.insert(entity(4, 0), 3));
    let (entities, values) = set.iter();
    assert_eq!(entities, &[entity(1, 0), entity(0, 0)]);
    assert_eq!(values, &[1, 2]);
}

#[test]
fn a_tick_reports_only_successful_spawns_in_order() {
    let mut cosmos = Cosmos::new();
    let first = cosmos.update(&[
        Command::TurnLeft(entity(3, 0)),
        Command::Spawn { kind: SpawnKind::Rectangle, centroid: at(0, 0) },
        Command::Accelerate(entity(0, 0)),
        Command::Spawn { kind: SpawnKind::Triangle, centroid: at(5, 5) },
    ]);
    assert_eq!(first, vec![entity(0, 0), entity(1, 0)]);
    cosmos.destroy(first[0]);
    let second = cosmos.update(&[Command::Spawn { kind: SpawnKind::Triangle, centroid: at(1, 1) }]);
    assert_eq!(second, vec![entity(0, 1)]);
    assert!(cosmos.components.bodies.get(&first[0]).is_none());
    let moved = *cosmos.components.bodies.get(&first[1]).unwrap();
    assert_eq!(moved.old, moved.new);
}
