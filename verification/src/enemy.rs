//! Enemies. So far they only come into being: each is placed at random in
//! the lower right quarter of the screen, and no more are made once enough of
//! them are there.

use rand::Rng;
use vstd::prelude::*;
use crate::config::{ENEMY_MAX_AIR_SPEED, MAX_ENEMIES, SCREEN_HEIGHT, SCREEN_WIDTH};

verus! {

/// An enemy: where it is and how fast it flies.
#[derive(Clone, Copy, Debug, PartialEq, Eq, Structural)]
pub struct Enemy {
    pub x: i32,
    pub y: i32,
    pub speed: i16,
}

impl Enemy {
    /// An enemy can have come out of a spawn as this one is: it lies in the
    /// lower right quarter of the screen and is slower than the fastest
    /// enemy allowed.
    pub open spec fn freshly_spawned(self) -> bool {
        &&& SCREEN_WIDTH / 2 <= self.x < SCREEN_WIDTH
        &&& SCREEN_HEIGHT / 2 <= self.y < SCREEN_HEIGHT
        &&& 0 <= self.speed < ENEMY_MAX_AIR_SPEED
    }

    /// The enemy at the given place with the given speed.
    pub fn new(spawn_x: i32, spawn_y: i32, speed: i16) -> (enemy: Enemy)
        ensures
            enemy == (Enemy { x: spawn_x, y: spawn_y, speed }),
    {
        Enemy { x: spawn_x, y: spawn_y, speed }
    }
}

/// Calls `gen_range` of the `rand` crate on the thread's generator, with the
/// half-open range from `low` to `high`. Which number comes back is up to
/// chance; all that is claimed is that it lies in the range. The call panics
/// on an empty range, which the precondition rules out.
#[verifier::external_body]
fn get_random(low: i32, high: i32) -> (drawn: i32)
    requires
        low < high,
    ensures
        low <= drawn < high,
{
    rand::thread_rng().gen_range(low..high)
}

/// The enemies after one more was spawned from the three numbers drawn.
pub open spec fn with_enemy(enemies: Seq<Enemy>, x: int, y: int, speed: int) -> Seq<Enemy> {
    enemies.push(Enemy { x: x as i32, y: y as i32, speed: speed as i16 })
}

/// Another enemy may be spawned: there are fewer than the most allowed.
pub open spec fn room_for_enemy(enemies: Seq<Enemy>) -> bool {
    enemies.len() < MAX_ENEMIES
}

/// One enemy that can have come out of a spawn was added at the end, and the
/// others are as they were.
pub open spec fn one_spawned(before: Seq<Enemy>, after: Seq<Enemy>) -> bool {
    &&& after.len() == before.len() + 1
    &&& after.drop_last() == before
    &&& after.last().freshly_spawned()
}

/// Whether another enemy is to be spawned.
pub fn should_spawn_enemy(enemies: &Vec<Enemy>) -> (spawn: bool)
    ensures
        spawn == room_for_enemy(enemies@),
{
    enemies.len() < MAX_ENEMIES as usize
}

/// Adds the enemy that the three numbers describe, behind the others.
pub fn spawn_enemy_at(enemies: &mut Vec<Enemy>, x: i32, y: i32, speed: i16)
    ensures
        final(enemies)@ == with_enemy(old(enemies)@, x as int, y as int, speed as int),
{
    enemies.push(Enemy::new(x, y, speed));
}

/// Spawns one enemy at a random place in the lower right quarter of the
/// screen, with a random speed.
pub fn spawn_enemy(enemies: &mut Vec<Enemy>)
    ensures
        one_spawned(old(enemies)@, final(enemies)@),
{
    let x: i32 = get_random(SCREEN_WIDTH / 2, SCREEN_WIDTH);
    let y: i32 = get_random(SCREEN_HEIGHT / 2, SCREEN_HEIGHT);
    let speed: i32 = get_random(0, ENEMY_MAX_AIR_SPEED as i32);
    spawn_enemy_at(enemies, x, y, speed as i16);
    assert(enemies@.drop_last() =~= old(enemies)@);
}

/// Looks after the enemies for one step: spawns one while there is room for
/// another, and leaves them alone otherwise. Where there were no more than
/// the most allowed, there are no more than that afterwards.
pub fn handle_enemies(enemies: &mut Vec<Enemy>)
    ensures
        room_for_enemy(old(enemies)@) ==> one_spawned(old(enemies)@, final(enemies)@),
        !room_for_enemy(old(enemies)@) ==> final(enemies)@ == old(enemies)@,
        old(enemies)@.len() <= MAX_ENEMIES ==> final(enemies)@.len() <= MAX_ENEMIES,
{
    if should_spawn_enemy(enemies) {
        spawn_enemy(enemies);
    }
}

} // verus!
