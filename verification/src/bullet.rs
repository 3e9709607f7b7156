//! The plane's shots. All of them exist from the start, in a pool of fixed
//! size: firing switches a resting one on, and a shot that has crossed the
//! screen is switched off and waits to be fired again.

use vstd::prelude::*;
use crate::config::{BULLET_STEP, FIRE_BALLS, SCREEN_WIDTH, TORPEDOES, VERTICAL_LIMIT};
use crate::plane::Plane;
use crate::sprite::{none, ratio, Picture, Ratio, Sprite};

verus! {

/// One slot of the pool.
#[derive(Clone, Copy, Debug, PartialEq, Eq, Structural)]
pub struct Bullet {
    pub x: i32,
    pub y: i32,
    /// In flight, as opposed to resting in the pool.
    pub active: bool,
    /// A torpedo, as opposed to a fire ball.
    pub torpedo: bool,
}

impl Bullet {
    /// A shot of the given kind may be fired from this slot.
    pub open spec fn is_free(self, torpedo: bool) -> bool {
        !self.active && self.torpedo == torpedo
    }

    /// The slot is within the bounds that the pool keeps: a shot starts where
    /// the plane is and is switched off as soon as it has crossed the right
    /// edge.
    pub open spec fn in_range(self) -> bool {
        &&& -(u16::MAX as int) <= self.x <= SCREEN_WIDTH + u16::MAX + BULLET_STEP
        &&& self.active ==> self.x <= SCREEN_WIDTH + u16::MAX
        &&& -VERTICAL_LIMIT <= self.y <= VERTICAL_LIMIT
    }

    /// The slot of the given kind in which no shot has been yet.
    pub open spec fn resting(torpedo: bool) -> Bullet {
        Bullet { x: 0, y: 0, active: false, torpedo }
    }

    /// The slot after a shot of its kind was fired from `(x, y)`.
    pub open spec fn launched(self, x: int, y: int) -> Bullet {
        Bullet { x: x as i32, y: y as i32, active: true, torpedo: self.torpedo }
    }

    /// The slot one frame later. A shot in flight moves to the right, and is
    /// switched off once it is past the right edge; a resting one stays.
    pub open spec fn flown(self) -> Bullet {
        if self.active {
            Bullet {
                x: (self.x + BULLET_STEP) as i32,
                active: self.x + BULLET_STEP <= SCREEN_WIDTH,
                ..self
            }
        } else {
            self
        }
    }

    /// How a shot is painted: a torpedo at a quarter of its image's size, a
    /// fire ball at half, anchored at the middle of the image's left edge.
    pub open spec fn sprite(self) -> Sprite {
        let den: int = if self.torpedo { 4 } else { 2 };
        Sprite {
            picture: if self.torpedo { Picture::Torpedo } else { Picture::FireBall },
            x: self.x,
            y: self.y,
            scale_x: ratio(1, den),
            scale_y: ratio(1, den),
            offset_x: none(),
            offset_y: ratio(1, 2),
            rotation: 0,
        }
    }

    /// A resting slot of the given kind.
    pub fn new(torpedo: bool) -> (bullet: Bullet)
        ensures
            bullet == Bullet::resting(torpedo),
    {
        Bullet { x: 0, y: 0, active: false, torpedo }
    }

    fn fly(self) -> (next: Bullet)
        requires
            self.in_range(),
        ensures
            next == self.flown(),
            next.in_range(),
    {
        if self.active {
            let x: i32 = self.x + BULLET_STEP;
            Bullet { x, y: self.y, active: x <= SCREEN_WIDTH, torpedo: self.torpedo }
        } else {
            self
        }
    }

    fn draw(self) -> (sprite: Sprite)
        ensures
            sprite == self.sprite(),
    {
        let den: i32 = if self.torpedo { 4 } else { 2 };
        Sprite {
            picture: if self.torpedo { Picture::Torpedo } else { Picture::FireBall },
            x: self.x,
            y: self.y,
            scale_x: Ratio::new(1, den),
            scale_y: Ratio::new(1, den),
            offset_x: Ratio::new(0, 1),
            offset_y: Ratio::new(1, 2),
            rotation: 0,
        }
    }
}

/// The pool as it is made: the fire balls first, then the torpedoes, all
/// resting.
pub open spec fn fresh_pool() -> Seq<Bullet> {
    Seq::new((FIRE_BALLS + TORPEDOES) as nat, |i: int| Bullet::resting(i >= FIRE_BALLS))
}

/// The layout that the pool never loses: its size, which slots hold which
/// kind, and the bounds of each slot.
pub open spec fn pool_wf(slots: Seq<Bullet>) -> bool {
    &&& slots.len() == FIRE_BALLS + TORPEDOES
    &&& forall|i: int| 0 <= i < slots.len() ==> (#[trigger] slots[i]).torpedo == (i >= FIRE_BALLS)
    &&& forall|i: int| 0 <= i < slots.len() ==> (#[trigger] slots[i]).in_range()
}

/// No slot is free for a shot of the given kind.
pub open spec fn none_free(slots: Seq<Bullet>, torpedo: bool) -> bool {
    forall|j: int| 0 <= j < slots.len() ==> !(#[trigger] slots[j]).is_free(torpedo)
}

/// Slot `i` is free for a shot of the given kind, and no slot before it is.
pub open spec fn first_free(slots: Seq<Bullet>, torpedo: bool, i: int) -> bool {
    &&& 0 <= i < slots.len()
    &&& slots[i].is_free(torpedo)
    &&& forall|j: int| 0 <= j < i ==> !(#[trigger] slots[j]).is_free(torpedo)
}

/// Every slot one frame later.
pub open spec fn flown_pool(slots: Seq<Bullet>) -> Seq<Bullet> {
    slots.map_values(|b: Bullet| b.flown())
}

/// What is painted of the pool in a frame: every shot that was in flight when
/// the frame began, at the place it has flown to, in the order of the slots.
/// A shot that leaves the screen in this frame is painted once more.
pub open spec fn flight_sprites(slots: Seq<Bullet>) -> Seq<Sprite> {
    slots.filter(|b: Bullet| b.active).map_values(|b: Bullet| b.flown().sprite())
}

/// The slot after `frames` frames.
pub open spec fn flown_for(bullet: Bullet, frames: nat) -> Bullet
    decreases frames,
{
    if frames == 0 {
        bullet
    } else {
        flown_for(bullet, (frames - 1) as nat).flown()
    }
}

/// Every shot comes to rest: one that is within the bounds of the pool is
/// switched off once it has had the frames it takes to cross the right edge,
/// at least one, and stays so. Its slot is then free for the next shot of
/// its kind.
pub proof fn lemma_flight_ends(bullet: Bullet, frames: nat)
    requires
        bullet.in_range(),
        frames > 0,
        bullet.x + BULLET_STEP * frames > SCREEN_WIDTH,
    ensures
        flown_for(bullet, frames).is_free(bullet.torpedo),
        flown_for(bullet, frames).in_range(),
{
    lemma_flight_path(bullet, frames);
}

/// Where a shot is after `frames` frames: while it is in flight it has moved
/// by one step per frame, and it is in flight only at or left of the right
/// edge.
proof fn lemma_flight_path(bullet: Bullet, frames: nat)
    requires
        bullet.in_range(),
    ensures
        flown_for(bullet, frames).in_range(),
        flown_for(bullet, frames).torpedo == bullet.torpedo,
        flown_for(bullet, frames).active ==> bullet.active && flown_for(bullet, frames).x
            == bullet.x + BULLET_STEP * frames,
        flown_for(bullet, frames).active && frames > 0 ==> flown_for(bullet, frames).x
            <= SCREEN_WIDTH,
    decreases frames,
{
    if frames > 0 {
        lemma_flight_path(bullet, (frames - 1) as nat);
    }
}

/// At most one slot is the first free one.
pub proof fn lemma_first_free_unique(slots: Seq<Bullet>, torpedo: bool, i: int, j: int)
    requires
        first_free(slots, torpedo, i),
        first_free(slots, torpedo, j),
    ensures
        i == j,
{
}

/// A frame keeps the layout of the pool.
pub proof fn lemma_flight_keeps_layout(slots: Seq<Bullet>)
    requires
        pool_wf(slots),
    ensures
        pool_wf(flown_pool(slots)),
{
    assert forall|i: int| 0 <= i < slots.len() implies (#[trigger] flown_pool(slots)[i]).in_range()
        && flown_pool(slots)[i].torpedo == (i >= FIRE_BALLS) by {
        assert(slots[i].in_range());
    }
}

/// A resting slot stays as it is until a shot is fired from it.
pub proof fn lemma_resting_stays(bullet: Bullet)
    requires
        !bullet.active,
    ensures
        bullet.flown() == bullet,
{
}

/// The pool as the game holds it. Its slots are private, so every pool there
/// is has the layout of [`pool_wf`]. Seen from outside it is the sequence of
/// its slots.
pub struct BulletPool {
    slots: Vec<Bullet>,
}

impl View for BulletPool {
    type V = Seq<Bullet>;

    closed spec fn view(&self) -> Seq<Bullet> {
        self.slots@
    }
}

impl BulletPool {
    /// What holds of every pool that exists.
    #[verifier::type_invariant]
    pub open spec fn inv(self) -> bool {
        pool_wf(self@)
    }

    /// A pool with every slot resting.
    pub fn new() -> (pool: BulletPool)
        ensures
            pool@ == fresh_pool(),
            pool_wf(pool@),
    {
        let mut slots: Vec<Bullet> = Vec::new();
        let mut made: usize = 0;
        while made < FIRE_BALLS
            invariant
                made <= FIRE_BALLS,
                slots@ == Seq::new(made as nat, |i: int| Bullet::resting(false)),
            decreases FIRE_BALLS - made,
        {
            slots.push(Bullet::new(false));
            made = made + 1;
            assert(slots@ =~= Seq::new(made as nat, |i: int| Bullet::resting(false)));
        }
        made = 0;
        while made < TORPEDOES
            invariant
                made <= TORPEDOES,
                slots@ == Seq::new(
                    (FIRE_BALLS + made) as nat,
                    |i: int| Bullet::resting(i >= FIRE_BALLS),
                ),
            decreases TORPEDOES - made,
        {
            slots.push(Bullet::new(true));
            made = made + 1;
            assert(slots@ =~= Seq::new(
                (FIRE_BALLS + made) as nat,
                |i: int| Bullet::resting(i >= FIRE_BALLS),
            ));
        }
        BulletPool { slots }
    }

    /// Fires a shot of the given kind from where the plane is. The first
    /// free slot of that kind takes it, and its index is returned; with no
    /// such slot nothing happens.
    pub fn fire(&mut self, plane: &Plane, torpedo: bool) -> (slot: Option<usize>)
        ensures
            pool_wf(old(self)@),
            pool_wf(final(self)@),
            plane@.wf(),
            match slot {
                Some(i) => {
                    &&& first_free(old(self)@, torpedo, i as int)
                    &&& final(self)@ == old(self)@.update(
                        i as int,
                        old(self)@[i as int].launched(plane@.x, plane@.y),
                    )
                },
                None => none_free(old(self)@, torpedo) && final(self)@ == old(self)@,
            },
    {
        proof {
            use_type_invariant(&*self);
        }
        let x: i32 = plane.x();
        let y: i32 = plane.y();
        let mut next: Vec<Bullet> = Vec::new();
        let mut slot: Option<usize> = None;
        let mut i: usize = 0;
        while i < self.slots.len()
            invariant
                i <= self.slots.len(),
                self.slots@ == old(self)@,
                pool_wf(self@),
                plane@.wf(),
                x == plane@.x,
                y == plane@.y,
                next@.len() == i,
                match slot {
                    Some(k) => {
                        &&& k < i
                        &&& first_free(self@, torpedo, k as int)
                        &&& next@ == self@.take(i as int).update(
                            k as int,
                            self@[k as int].launched(x as int, y as int),
                        )
                    },
                    None => {
                        &&& forall|j: int| 0 <= j < i ==> !(#[trigger] self@[j]).is_free(torpedo)
                        &&& next@ == self@.take(i as int)
                    },
                },
            decreases self.slots.len() - i,
        {
            let bullet: Bullet = self.slots[i];
            if slot.is_none() && !bullet.active && bullet.torpedo == torpedo {
                next.push(Bullet { x, y, active: true, torpedo });
                slot = Some(i);
                assert(next@ =~= self@.take(i + 1).update(
                    i as int,
                    self@[i as int].launched(x as int, y as int),
                ));
            } else {
                next.push(bullet);
                match slot {
                    Some(k) => {
                        assert(next@ =~= self@.take(i + 1).update(
                            k as int,
                            self@[k as int].launched(x as int, y as int),
                        ));
                    },
                    None => {
                        assert(next@ =~= self@.take(i + 1));
                    },
                }
            }
            i = i + 1;
        }
        assert(self@.take(i as int) =~= self@);
        proof {
            match slot {
                Some(k) => {
                    assert forall|j: int| 0 <= j < next@.len() implies (#[trigger] next@[j]).in_range()
                        && next@[j].torpedo == (j >= FIRE_BALLS) by {
                        assert(self@[j].in_range());
                    }
                },
                None => {},
            }
        }
        self.slots = next;
        slot
    }

    /// Advances every shot by one frame and returns what is to be painted of
    /// the pool.
    pub fn draw(&mut self) -> (sprites: Vec<Sprite>)
        ensures
            pool_wf(old(self)@),
            final(self)@ == flown_pool(old(self)@),
            sprites@ == flight_sprites(old(self)@),
    {
        proof {
            use_type_invariant(&*self);
        }
        let mut sprites: Vec<Sprite> = Vec::new();
        let mut next: Vec<Bullet> = Vec::new();
        let mut i: usize = 0;
        while i < self.slots.len()
            invariant
                i <= self.slots.len(),
                self.slots@ == old(self)@,
                pool_wf(self@),
                next@ == flown_pool(self@.take(i as int)),
                sprites@ == flight_sprites(self@.take(i as int)),
            decreases self.slots.len() - i,
        {
            let bullet: Bullet = self.slots[i];
            let moved: Bullet = bullet.fly();
            next.push(moved);
            if bullet.active {
                sprites.push(moved.draw());
            }
            proof {
                lemma_flight_sprites_step(self@, i as int);
                assert(next@ =~= flown_pool(self@.take(i + 1)));
            }
            i = i + 1;
        }
        proof {
            assert(self@.take(i as int) =~= self@);
            lemma_flight_keeps_layout(self@);
        }
        self.slots = next;
        sprites
    }

    /// The slot at `index`.
    pub fn get(&self, index: usize) -> (bullet: Bullet)
        requires
            index < FIRE_BALLS + TORPEDOES,
        ensures
            bullet == self@[index as int],
            pool_wf(self@),
    {
        proof {
            use_type_invariant(self);
        }
        self.slots[index]
    }

    /// The number of slots, which never changes.
    pub fn len(&self) -> (len: usize)
        ensures
            len == self@.len(),
            len == FIRE_BALLS + TORPEDOES,
    {
        proof {
            use_type_invariant(self);
        }
        self.slots.len()
    }
}

/// What is painted of the first `i + 1` slots is what is painted of the first
/// `i`, followed by the shot in slot `i` if it is in flight.
proof fn lemma_flight_sprites_step(slots: Seq<Bullet>, i: int)
    requires
        0 <= i < slots.len(),
    ensures
        flight_sprites(slots.take(i + 1)) == if slots[i].active {
            flight_sprites(slots.take(i)).push(slots[i].flown().sprite())
        } else {
            flight_sprites(slots.take(i))
        },
{
    reveal(Seq::filter);
    let in_flight = |b: Bullet| b.active;
    let paint = |b: Bullet| b.flown().sprite();
    assert(slots.take(i + 1).drop_last() =~= slots.take(i));
    assert(slots.take(i + 1).last() == slots[i]);
    if slots[i].active {
        assert(slots.take(i + 1).filter(in_flight) == slots.take(i).filter(in_flight).push(
            slots[i],
        ));
        assert(slots.take(i).filter(in_flight).push(slots[i]).map_values(paint)
            =~= slots.take(i).filter(in_flight).map_values(paint).push(paint(slots[i])));
    } else {
        assert(slots.take(i + 1).filter(in_flight) == slots.take(i).filter(in_flight));
    }
}

} // verus!
