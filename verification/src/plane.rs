//! The player's plane: steered by the held keys, wrapped at the screen's
//! vertical edges.

use vstd::prelude::*;
use crate::config::{AIR_SPEED, CLIMB_STEP, PLANE_START_X, PLANE_START_Y, SCREEN_WIDTH, VERTICAL_LIMIT};
use crate::input::KeyState;
use crate::sprite::{ratio, Picture, Ratio, Sprite};

verus! {

/// What a plane is, as plain numbers.
pub struct PlaneState {
    pub boost: bool,
    pub x: int,
    pub y: int,
    pub angle: int,
    pub speed: int,
    /// Width of the plane's image, in pixels.
    pub width: int,
}

impl PlaneState {
    /// The bounds every plane keeps: the speed never exceeds the air speed,
    /// the plane is never further outside the screen than its image is wide,
    /// its height stays within the vertical limit, and it flies level.
    pub open spec fn wf(self) -> bool {
        &&& 0 <= self.width <= u16::MAX
        &&& -AIR_SPEED <= self.speed <= AIR_SPEED
        &&& -self.width <= self.x <= SCREEN_WIDTH + self.width
        &&& -VERTICAL_LIMIT <= self.y <= VERTICAL_LIMIT
        &&& self.angle == 0
    }

    /// The plane as it enters the game.
    pub open spec fn start(width: int) -> PlaneState {
        PlaneState {
            boost: false,
            x: PLANE_START_X as int,
            y: PLANE_START_Y as int,
            angle: 0,
            speed: 0,
            width,
        }
    }

    /// The speed after one step. Right sets it to the air speed unless it is
    /// there already; otherwise left sets it to the opposite.
    pub open spec fn next_speed(self, keys: KeyState) -> int {
        if keys.right && self.speed < AIR_SPEED {
            AIR_SPEED as int
        } else if keys.left && self.speed > -AIR_SPEED {
            -AIR_SPEED
        } else {
            self.speed
        }
    }

    /// The height after one step: up first, then down, each held at the
    /// vertical limit.
    pub open spec fn next_y(self, keys: KeyState) -> int {
        let risen = if keys.up && self.y - CLIMB_STEP >= -VERTICAL_LIMIT {
            self.y - CLIMB_STEP
        } else if keys.up {
            -VERTICAL_LIMIT
        } else {
            self.y
        };
        if keys.down && risen + CLIMB_STEP <= VERTICAL_LIMIT {
            risen + CLIMB_STEP
        } else if keys.down {
            VERTICAL_LIMIT as int
        } else {
            risen
        }
    }

    /// Where the step carries the plane before the screen's edges are looked
    /// at: it moves by the new speed when exactly one of left and right is
    /// held.
    pub open spec fn drifted_x(self, keys: KeyState) -> int {
        if keys.right != keys.left {
            self.x + self.next_speed(keys)
        } else {
            self.x
        }
    }

    /// The horizontal position after one step. A plane that has left the
    /// screen by more than its width on the right comes back at the left
    /// edge, and the other way round.
    pub open spec fn next_x(self, keys: KeyState) -> int {
        let moved = self.drifted_x(keys);
        if moved > SCREEN_WIDTH + self.width {
            0
        } else if moved < -self.width {
            SCREEN_WIDTH as int
        } else {
            moved
        }
    }

    /// The plane one step later, with `keys` held.
    pub open spec fn step(self, keys: KeyState) -> PlaneState {
        PlaneState {
            x: self.next_x(keys),
            y: self.next_y(keys),
            speed: self.next_speed(keys),
            ..self
        }
    }

    /// How the plane is painted: an eighth of its image's size, anchored at
    /// the image's centre.
    pub open spec fn sprite(self) -> Sprite {
        Sprite {
            picture: Picture::Plane,
            x: self.x as i32,
            y: self.y as i32,
            scale_x: ratio(1, 8),
            scale_y: ratio(1, 8),
            offset_x: ratio(1, 2),
            offset_y: ratio(1, 2),
            rotation: self.angle as i32,
        }
    }
}

/// A step keeps the bounds.
pub proof fn lemma_step_keeps_bounds(plane: PlaneState, keys: KeyState)
    requires
        plane.wf(),
    ensures
        plane.step(keys).wf(),
{
}

/// With no steering key held a step leaves the plane where it is.
pub proof fn lemma_idle_step(plane: PlaneState)
    requires
        plane.wf(),
    ensures
        plane.step(KeyState { right: false, left: false, up: false, down: false }) == plane,
{
}

/// While only right is held the plane flies at the air speed, and while only
/// left is held at its opposite: the speed is never anything between.
pub proof fn lemma_speed_follows_key(plane: PlaneState, keys: KeyState)
    requires
        plane.wf(),
        keys.right != keys.left,
    ensures
        keys.right ==> plane.step(keys).speed == AIR_SPEED,
        keys.left ==> plane.step(keys).speed == -AIR_SPEED,
{
}

/// The plane as the game holds it. Its fields are private, so every plane
/// there is keeps the bounds of [`PlaneState::wf`].
pub struct Plane {
    boost: bool,
    x: i32,
    y: i32,
    angle: i32,
    speed: i32,
    width: u16,
}

impl View for Plane {
    type V = PlaneState;

    closed spec fn view(&self) -> PlaneState {
        PlaneState {
            boost: self.boost,
            x: self.x as int,
            y: self.y as int,
            angle: self.angle as int,
            speed: self.speed as int,
            width: self.width as int,
        }
    }
}

impl Plane {
    /// What holds of every plane that exists.
    #[verifier::type_invariant]
    pub open spec fn inv(self) -> bool {
        self@.wf()
    }

    /// A plane at its starting place, at rest, whose image is `image_width`
    /// pixels wide.
    pub fn new(image_width: u16) -> (plane: Plane)
        ensures
            plane@ == PlaneState::start(image_width as int),
            plane@.wf(),
    {
        Plane {
            boost: false,
            x: PLANE_START_X,
            y: PLANE_START_Y,
            angle: 0,
            speed: 0,
            width: image_width,
        }
    }

    /// Moves the plane by one step, with `keys` held.
    pub fn update(&mut self, keys: KeyState)
        ensures
            final(self)@ == old(self)@.step(keys),
            old(self)@.wf(),
            final(self)@.wf(),
    {
        proof {
            use_type_invariant(&*self);
        }
        if keys.right && self.speed < AIR_SPEED {
            self.speed = AIR_SPEED;
        } else if keys.left && self.speed > -AIR_SPEED {
            self.speed = -AIR_SPEED;
        }
        if keys.up {
            self.y = if self.y - CLIMB_STEP >= -VERTICAL_LIMIT {
                self.y - CLIMB_STEP
            } else {
                -VERTICAL_LIMIT
            };
        }
        if keys.down {
            self.y = if self.y + CLIMB_STEP <= VERTICAL_LIMIT {
                self.y + CLIMB_STEP
            } else {
                VERTICAL_LIMIT
            };
        }
        let width: i32 = self.width as i32;
        let mut moved: i32 = self.x;
        if keys.right != keys.left {
            moved = moved + self.speed;
        }
        if moved > SCREEN_WIDTH + width {
            moved = 0;
        } else if moved < -width {
            moved = SCREEN_WIDTH;
        }
        self.x = moved;
    }

    /// Switches the boost on or off. Nothing else changes.
    pub fn set_boost(&mut self, boost: bool)
        ensures
            final(self)@ == (PlaneState { boost, ..old(self)@ }),
    {
        proof {
            use_type_invariant(&*self);
        }
        self.boost = boost;
    }

    /// The record by which the plane is painted.
    pub fn draw(&self) -> (sprite: Sprite)
        ensures
            sprite == self@.sprite(),
    {
        Sprite {
            picture: Picture::Plane,
            x: self.x,
            y: self.y,
            scale_x: Ratio::new(1, 8),
            scale_y: Ratio::new(1, 8),
            offset_x: Ratio::new(1, 2),
            offset_y: Ratio::new(1, 2),
            rotation: self.angle,
        }
    }

    pub fn x(&self) -> (x: i32)
        ensures
            x == self@.x,
            self@.wf(),
    {
        proof {
            use_type_invariant(self);
        }
        self.x
    }

    pub fn y(&self) -> (y: i32)
        ensures
            y == self@.y,
            self@.wf(),
    {
        proof {
            use_type_invariant(self);
        }
        self.y
    }

    pub fn speed(&self) -> (speed: i32)
        ensures
            speed == self@.speed,
    {
        self.speed
    }

    pub fn angle(&self) -> (angle: i32)
        ensures
            angle == self@.angle,
    {
        self.angle
    }

    pub fn boost(&self) -> (boost: bool)
        ensures
            boost == self@.boost,
    {
        self.boost
    }

    pub fn width(&self) -> (width: u16)
        ensures
            width == self@.width,
    {
        self.width
    }
}

} // verus!
