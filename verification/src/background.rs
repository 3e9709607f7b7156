//! The scrolling backdrop: one image painted twice, side by side, and moved
//! to the left a little every step.

use vstd::prelude::*;
use crate::config::{SCREEN_HEIGHT, SCREEN_WIDTH, SCROLL_STEP};
use crate::sprite::{none, ratio, Picture, Ratio, Sprite};

verus! {

/// What a backdrop is, as plain numbers.
pub struct BackgroundState {
    /// Left edge of the first copy.
    pub x: int,
    /// Left edge of the second copy.
    pub x2: int,
    /// Size of the image, in pixels.
    pub width: int,
    pub height: int,
}

impl BackgroundState {
    /// The second copy starts on the screen, and the first copy lies one
    /// screen width to its left, except before the first step, when both
    /// lie at the left edge.
    pub open spec fn wf(self) -> bool {
        &&& 0 <= self.width <= u16::MAX
        &&& 0 <= self.height <= u16::MAX
        &&& 0 <= self.x2 <= SCREEN_WIDTH
        &&& (self.x == self.x2 - SCREEN_WIDTH || (self.x == 0 && self.x2 == 0))
    }

    /// Both copies at the left edge.
    pub open spec fn start(width: int, height: int) -> BackgroundState {
        BackgroundState { x: 0, x2: 0, width, height }
    }

    /// The second copy would leave the screen on the left with this step.
    pub open spec fn wraps(self) -> bool {
        self.x2 - SCROLL_STEP < 0
    }

    /// The backdrop one step later: both copies move left, and when the
    /// second has left the screen they start over.
    pub open spec fn step(self) -> BackgroundState {
        if self.wraps() {
            BackgroundState { x: 0, x2: SCREEN_WIDTH as int, ..self }
        } else {
            BackgroundState { x: self.x - SCROLL_STEP, x2: self.x2 - SCROLL_STEP, ..self }
        }
    }

    /// A copy of the image stretched over the whole screen, with its left
    /// edge at `x`.
    pub open spec fn sprite_at(self, x: int) -> Sprite {
        Sprite {
            picture: Picture::Background,
            x: x as i32,
            y: 0,
            scale_x: ratio(SCREEN_WIDTH as int, self.width),
            scale_y: ratio(SCREEN_HEIGHT as int, self.height),
            offset_x: none(),
            offset_y: none(),
            rotation: 0,
        }
    }
}

/// A step keeps the bounds.
pub proof fn lemma_scroll_keeps_bounds(background: BackgroundState)
    requires
        background.wf(),
    ensures
        background.step().wf(),
{
}

/// After any step the two copies lie exactly one screen width apart, so
/// together they cover the screen without a gap.
pub proof fn lemma_copies_tile(background: BackgroundState)
    requires
        background.wf(),
    ensures
        background.step().x2 == background.step().x + SCREEN_WIDTH,
        background.step().x <= 0,
        background.step().x2 >= 0,
{
}

/// The backdrop as the game holds it. Its fields are private, so every
/// backdrop there is keeps the bounds of [`BackgroundState::wf`].
pub struct Background {
    x: i32,
    x2: i32,
    width: u16,
    height: u16,
}

impl View for Background {
    type V = BackgroundState;

    closed spec fn view(&self) -> BackgroundState {
        BackgroundState {
            x: self.x as int,
            x2: self.x2 as int,
            width: self.width as int,
            height: self.height as int,
        }
    }
}

impl Background {
    /// What holds of every backdrop that exists.
    #[verifier::type_invariant]
    pub open spec fn inv(self) -> bool {
        self@.wf()
    }

    /// A backdrop for an image of the given size, not scrolled yet.
    pub fn new(img_width: u16, img_height: u16) -> (background: Background)
        ensures
            background@ == BackgroundState::start(img_width as int, img_height as int),
            background@.wf(),
    {
        Background { x: 0, x2: 0, width: img_width, height: img_height }
    }

    /// Scrolls by one step.
    pub fn update(&mut self)
        ensures
            final(self)@ == old(self)@.step(),
            old(self)@.wf(),
            final(self)@.wf(),
    {
        proof {
            use_type_invariant(&*self);
        }
        let (x, x2): (i32, i32) = if self.x2 - SCROLL_STEP < 0 {
            (0, SCREEN_WIDTH)
        } else {
            (self.x - SCROLL_STEP, self.x2 - SCROLL_STEP)
        };
        *self = Background { x, x2, width: self.width, height: self.height };
    }

    /// The two records by which the backdrop is painted, first copy first.
    pub fn draw(&self) -> (sprites: (Sprite, Sprite))
        ensures
            sprites.0 == self@.sprite_at(self@.x),
            sprites.1 == self@.sprite_at(self@.x2),
            self@.wf(),
    {
        proof {
            use_type_invariant(self);
        }
        let first = Sprite {
            picture: Picture::Background,
            x: self.x,
            y: 0,
            scale_x: Ratio::new(SCREEN_WIDTH, self.width as i32),
            scale_y: Ratio::new(SCREEN_HEIGHT, self.height as i32),
            offset_x: Ratio::new(0, 1),
            offset_y: Ratio::new(0, 1),
            rotation: 0,
        };
        let second = Sprite { x: self.x2, ..first };
        (first, second)
    }

    pub fn x(&self) -> (x: i32)
        ensures
            x == self@.x,
            self@.wf(),
    {
        proof {
            use_type_invariant(self);
        }
        self.x
    }

    pub fn x2(&self) -> (x2: i32)
        ensures
            x2 == self@.x2,
            self@.wf(),
    {
        proof {
            use_type_invariant(self);
        }
        self.x2
    }

    pub fn width(&self) -> (width: u16)
        ensures
            width == self@.width,
    {
        self.width
    }

    pub fn height(&self) -> (height: u16)
        ensures
            height == self@.height,
    {
        self.height
    }
}

} // verus!
