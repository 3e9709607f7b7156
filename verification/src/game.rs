//! The whole game in one value, and the four things that happen to it: time
//! passes, a frame is painted, a key goes down, a key comes up.

use vstd::prelude::*;
use crate::background::{Background, BackgroundState};
use crate::bullet::{
    first_free, flight_sprites, flown_pool, fresh_pool, lemma_flight_keeps_layout, none_free,
    pool_wf, Bullet, BulletPool,
};
use crate::config::{FIRE_BALLS, NANOS_PER_UPDATE};
use crate::enemy::Enemy;
use crate::input::{Key, KeyState};
use crate::plane::{Plane, PlaneState};
use crate::sprite::Sprite;

verus! {

/// What a game is, as plain values.
pub struct GameState {
    pub plane: PlaneState,
    pub background: BackgroundState,
    pub enemies: Seq<Enemy>,
    pub bullets: Seq<Bullet>,
    pub game_over: bool,
    /// When the game last advanced, in nanoseconds.
    pub last_update: int,
    pub keys: KeyState,
}

/// Enough time has passed between `last` and `now` for the next step. A
/// clock that has gone backwards never makes a step due.
pub open spec fn update_due(last: int, now: int) -> bool {
    now - last >= NANOS_PER_UPDATE
}

/// The kind of shot that the release of `key` fires, if it fires one.
pub open spec fn shot_fired_by(key: Key) -> Option<bool> {
    match key {
        Key::F => Some(false),
        Key::Space => Some(true),
        _ => None,
    }
}

impl GameState {
    /// The plane, the backdrop and the pool of shots are within their bounds.
    pub open spec fn wf(self) -> bool {
        &&& self.plane.wf()
        &&& self.background.wf()
        &&& pool_wf(self.bullets)
    }

    /// A new game at time `now`.
    pub open spec fn start(plane_width: int, img_width: int, img_height: int, now: int) -> GameState {
        GameState {
            plane: PlaneState::start(plane_width),
            background: BackgroundState::start(img_width, img_height),
            enemies: Seq::empty(),
            bullets: fresh_pool(),
            game_over: false,
            last_update: now,
            keys: KeyState { right: false, left: false, up: false, down: false },
        }
    }

    /// The game after the clock was read as `now`. Before the next step is
    /// due nothing changes. Once it is, the time is noted, and unless the
    /// game is over the plane and the backdrop make one step.
    pub open spec fn updated(self, now: int) -> GameState {
        if !update_due(self.last_update, now) {
            self
        } else if self.game_over {
            GameState { last_update: now, ..self }
        } else {
            GameState {
                plane: self.plane.step(self.keys),
                background: self.background.step(),
                last_update: now,
                ..self
            }
        }
    }

    /// What a frame shows: the backdrop's two copies, the plane over them,
    /// and over that the shots in flight.
    pub open spec fn frame(self) -> Seq<Sprite> {
        seq![
            self.background.sprite_at(self.background.x),
            self.background.sprite_at(self.background.x2),
            self.plane.sprite(),
        ] + flight_sprites(self.bullets)
    }

    /// The game after a frame was painted: the shots have flown on.
    pub open spec fn painted(self) -> GameState {
        GameState { bullets: flown_pool(self.bullets), ..self }
    }

    /// The game after `key` went down: a steering key is held from now on,
    /// and the space bar switches the boost on.
    pub open spec fn key_down(self, key: Key) -> GameState {
        GameState {
            keys: self.keys.with_key(key, true),
            plane: PlaneState { boost: self.plane.boost || key == Key::Space, ..self.plane },
            ..self
        }
    }

    /// The game after a key came up that fires no shot: a steering key is
    /// held no longer.
    pub open spec fn key_up(self, key: Key) -> GameState {
        GameState { keys: self.keys.with_key(key, false), ..self }
    }

    /// The game after a shot of the given kind left the plane from slot `i`.
    pub open spec fn fired(self, i: int) -> GameState {
        GameState {
            bullets: self.bullets.update(i, self.bullets[i].launched(self.plane.x, self.plane.y)),
            ..self
        }
    }
}

/// Neither the passing of time nor the painting of a frame takes the game out
/// of its bounds.
pub proof fn lemma_game_keeps_bounds(game: GameState, now: int)
    requires
        game.wf(),
    ensures
        game.updated(now).wf(),
        game.painted().wf(),
{
    lemma_flight_keeps_layout(game.bullets);
}

/// The game never advances twice within one interval: after a step at `now`
/// the next one is due exactly when a full interval has passed since `now`.
pub proof fn lemma_steps_are_spaced(game: GameState, now: int, later: int)
    requires
        update_due(game.last_update, now),
    ensures
        update_due(game.updated(now).last_update, later) <==> later >= now + NANOS_PER_UPDATE,
        later < now + NANOS_PER_UPDATE ==> game.updated(now).updated(later) == game.updated(now),
{
}

/// A reading of the clock that comes too early leaves no trace: the step
/// that follows is the one that would have followed without it.
pub proof fn lemma_early_reading_is_ignored(game: GameState, early: int, now: int)
    requires
        !update_due(game.last_update, early),
    ensures
        game.updated(early) == game,
        game.updated(early).updated(now) == game.updated(now),
{
}

/// Once the game is over, time moves neither the plane nor the backdrop.
pub proof fn lemma_game_over_freezes(game: GameState, now: int)
    requires
        game.game_over,
    ensures
        game.updated(now) == (GameState { last_update: game.updated(now).last_update, ..game }),
        game.updated(now).game_over,
{
}

/// A shot that was fired is in flight from where the plane is, in a slot of
/// its own kind, and every other slot is as it was.
pub proof fn lemma_fired_shot(game: GameState, torpedo: bool, i: int)
    requires
        game.wf(),
        first_free(game.bullets, torpedo, i),
    ensures
        game.fired(i).wf(),
        game.fired(i).bullets[i] == (Bullet {
            x: game.plane.x as i32,
            y: game.plane.y as i32,
            active: true,
            torpedo,
        }),
        forall|j: int|
            0 <= j < game.bullets.len() && j != i ==> game.fired(i).bullets[j] == game.bullets[j],
        !first_free(game.fired(i).bullets, torpedo, i),
{
    assert(game.bullets[i].in_range());
    assert forall|j: int| 0 <= j < game.bullets.len() implies (#[trigger] game.fired(
        i,
    ).bullets[j]).in_range() && game.fired(i).bullets[j].torpedo == (j >= FIRE_BALLS) by {
        assert(game.bullets[j].in_range());
    }
}

/// The game as the engine's callbacks hold it. Seen through its view it is a
/// [`GameState`]; the plane, the backdrop and the pool of shots keep their
/// bounds by themselves.
pub struct MyGameState {
    pub plane: Plane,
    pub background: Background,
    pub enemies: Vec<Enemy>,
    pub bullets: BulletPool,
    pub game_over: bool,
    pub last_update: u64,
    pub keys: KeyState,
}

impl View for MyGameState {
    type V = GameState;

    open spec fn view(&self) -> GameState {
        GameState {
            plane: self.plane@,
            background: self.background@,
            enemies: self.enemies@,
            bullets: self.bullets@,
            game_over: self.game_over,
            last_update: self.last_update as int,
            keys: self.keys,
        }
    }
}

impl MyGameState {
    /// A new game, begun at `now`: the plane at its starting place, the
    /// backdrop not scrolled, no enemy, every shot resting, no key held.
    /// The widths and the height are those of the plane's and the backdrop's
    /// images.
    pub fn new(plane_width: u16, img_width: u16, img_height: u16, now: u64) -> (game: MyGameState)
        ensures
            game@ == GameState::start(
                plane_width as int,
                img_width as int,
                img_height as int,
                now as int,
            ),
            game@.wf(),
    {
        MyGameState {
            plane: Plane::new(plane_width),
            background: Background::new(img_width, img_height),
            enemies: Vec::new(),
            bullets: BulletPool::new(),
            game_over: false,
            last_update: now,
            keys: KeyState::new(),
        }
    }

    /// Tells the game that the clock reads `now`, in nanoseconds.
    pub fn update(&mut self, now: u64)
        ensures
            final(self)@ == old(self)@.updated(now as int),
            final(self)@.wf(),
    {
        proof {
            use_type_invariant(&self.plane);
            use_type_invariant(&self.background);
            use_type_invariant(&self.bullets);
        }
        if now < self.last_update || now - self.last_update < NANOS_PER_UPDATE {
            return ;
        }
        if !self.game_over {
            self.plane.update(self.keys);
            self.background.update();
        }
        self.last_update = now;
    }

    /// Paints a frame: returns what is to be shown, from the bottom up, and
    /// lets the shots fly on.
    pub fn draw(&mut self) -> (sprites: Vec<Sprite>)
        ensures
            sprites@ == old(self)@.frame(),
            final(self)@ == old(self)@.painted(),
            final(self)@.wf(),
    {
        proof {
            use_type_invariant(&self.plane);
        }
        let backdrop: (Sprite, Sprite) = self.background.draw();
        let mut sprites: Vec<Sprite> = Vec::new();
        sprites.push(backdrop.0);
        sprites.push(backdrop.1);
        sprites.push(self.plane.draw());
        let mut shots: Vec<Sprite> = self.bullets.draw();
        sprites.append(&mut shots);
        assert(sprites@ =~= old(self)@.frame());
        sprites
    }

    /// A key went down.
    pub fn key_down_event(&mut self, key: Key)
        ensures
            final(self)@ == old(self)@.key_down(key),
            final(self)@.wf(),
    {
        proof {
            use_type_invariant(&self.plane);
            use_type_invariant(&self.background);
            use_type_invariant(&self.bullets);
        }
        match key {
            Key::Space => {
                self.plane.set_boost(true);
            },
            _ => {
                self.keys.press(key);
            },
        }
    }

    /// A key came up. Letting go of F fires a fire ball and letting go of the
    /// space bar a torpedo, from the first free slot of that kind and from
    /// where the plane is; with no free slot nothing happens. The index of
    /// the slot is returned.
    pub fn key_up_event(&mut self, key: Key) -> (slot: Option<usize>)
        ensures
            match (shot_fired_by(key), slot) {
                (Some(torpedo), Some(i)) => {
                    &&& first_free(old(self)@.bullets, torpedo, i as int)
                    &&& final(self)@ == old(self)@.fired(i as int)
                },
                (Some(torpedo), None) => {
                    &&& none_free(old(self)@.bullets, torpedo)
                    &&& final(self)@ == old(self)@
                },
                (None, Some(_)) => false,
                (None, None) => final(self)@ == old(self)@.key_up(key),
            },
            final(self)@.wf(),
    {
        proof {
            use_type_invariant(&self.plane);
            use_type_invariant(&self.background);
            use_type_invariant(&self.bullets);
        }
        match key {
            Key::F => self.bullets.fire(&self.plane, false),
            Key::Space => self.bullets.fire(&self.plane, true),
            _ => {
                self.keys.release(key);
                None
            },
        }
    }
}

} // verus!
