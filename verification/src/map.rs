use vstd::prelude::*;
use vstd::arithmetic::div_mod::lemma_fundamental_div_mod_converse;
use crate::style::BORDER_CONFINEMENT_OFFSET;
use crate::style::MAX_CAMERA;
use crate::style::MAX_COORD;
use crate::utils::Vec2;
use crate::utils::floor_div_rem;
use crate::utils::my_fract;

verus! {

/// The length of the wrapped world, in ticks.
pub const SIZE: i64 = 4_990_000;

/// Half the length of the wrapped world, in ticks.
pub const HALF_SIZE: i64 = 2_495_000;

/// Marks an entity whose altitude is kept inside the playing band.
#[derive(Clone, Copy, Debug, PartialEq, Eq, Structural)]
pub struct Confine;

/// Marks an entity whose x is projected next to the camera every frame.
#[derive(Clone, Copy, Debug, PartialEq, Eq, Structural)]
pub struct Scroll;

/// The wrap context of one frame, made from the camera's x.
#[derive(Clone, Copy, Debug, PartialEq, Eq, Structural)]
pub struct MapScroll {
    /// The number of whole world lengths that lie left of the camera.
    pub map_index: i64,
    /// The camera's x within its world length, in `[0, SIZE)`.
    pub camera_x: i64,
    /// The camera's true x.
    pub real_camera_x: i64,
}

/// The top of the playing band for a window of the given height: the eighth of
/// the window above it belongs to the minimap.
pub open spec fn band_top(window_height: int) -> int {
    window_height - window_height / 8
}

/// The altitude `y` moved into `[lo, hi]`.
pub open spec fn clamp_spec(y: int, lo: int, hi: int) -> int {
    if y < lo {
        lo
    } else if y > hi {
        hi
    } else {
        y
    }
}

/// The top of the playing band, below the strip that the minimap takes.
pub fn playing_band_top(window_height: i64) -> (h: i64)
    requires
        0 <= window_height,
    ensures
        h == band_top(window_height as int),
        0 <= h <= window_height,
{
    window_height - window_height / 8
}

/// Keeps an altitude inside the playing band: no lower than the border offset,
/// no higher than the band's top less the border offset.
pub fn confine(y: i64, window_height: i64) -> (r: i64)
    requires
        0 <= window_height,
        2 * BORDER_CONFINEMENT_OFFSET <= band_top(window_height as int),
    ensures
        r == clamp_spec(
            y as int,
            BORDER_CONFINEMENT_OFFSET as int,
            band_top(window_height as int) - BORDER_CONFINEMENT_OFFSET,
        ),
        BORDER_CONFINEMENT_OFFSET <= r <= band_top(window_height as int)
            - BORDER_CONFINEMENT_OFFSET,
{
    let lo: i64 = BORDER_CONFINEMENT_OFFSET;
    let hi: i64 = playing_band_top(window_height) - BORDER_CONFINEMENT_OFFSET;
    if y < lo {
        lo
    } else if y > hi {
        hi
    } else {
        y
    }
}

impl MapScroll {
    /// The fields agree with one another and the camera is within the
    /// supported range of coordinates.
    pub open spec fn wf(self) -> bool {
        &&& 0 <= self.camera_x < SIZE
        &&& self.real_camera_x == self.map_index * SIZE + self.camera_x
        &&& -MAX_CAMERA <= self.real_camera_x <= MAX_CAMERA
    }

    /// By how many world lengths a point with fractional position `xf` is
    /// moved so that it lands next to the camera.
    pub open spec fn shift_spec(self, xf: int) -> int {
        if xf > self.camera_x + HALF_SIZE {
            -1
        } else if xf < self.camera_x - HALF_SIZE {
            1
        } else {
            0
        }
    }

    /// The representation of `x` next to the camera.
    pub open spec fn update_spec(self, x: int) -> int {
        let xf = x % (SIZE as int);
        xf + (self.map_index + self.shift_spec(xf)) * SIZE
    }

    /// The wrap context of a camera at `camera_x`, as a value.
    pub open spec fn context(camera_x: int) -> MapScroll {
        MapScroll {
            map_index: (camera_x / (SIZE as int)) as i64,
            camera_x: (camera_x % (SIZE as int)) as i64,
            real_camera_x: camera_x as i64,
        }
    }

    /// The wrap context for a camera at `camera_x`.
    pub fn new(camera_x: i64) -> (s: MapScroll)
        requires
            -MAX_CAMERA <= camera_x <= MAX_CAMERA,
        ensures
            s.wf(),
            s.real_camera_x == camera_x,
            s.map_index == camera_x as int / SIZE as int,
            s.camera_x == camera_x as int % SIZE as int,
            s == MapScroll::context(camera_x as int),
    {
        let (map_index, fraction) = floor_div_rem(camera_x, SIZE);
        MapScroll { map_index, camera_x: fraction, real_camera_x: camera_x }
    }

    /// Projects a world x onto its representation nearest the camera: the
    /// result lies on the same point of the circle as `x` and no further than
    /// half a world length from the camera.
    pub fn update(&self, x: i64) -> (r: i64)
        requires
            self.wf(),
        ensures
            r == self.update_spec(x as int),
            r as int % SIZE as int == x as int % SIZE as int,
            -HALF_SIZE <= r - self.real_camera_x <= HALF_SIZE,
            -MAX_COORD <= r <= MAX_COORD,
    {
        let xf: i64 = my_fract(x, SIZE);
        let shift: i64 = if xf > self.camera_x + HALF_SIZE {
            -1
        } else if xf < self.camera_x - HALF_SIZE {
            1
        } else {
            0
        };
        proof {
            let k = self.map_index + shift;
            assert(-300_000 <= self.map_index <= 300_000) by (nonlinear_arith)
                requires
                    0 <= self.camera_x < 4_990_000,
                    self.real_camera_x == self.map_index * 4_990_000 + self.camera_x,
                    -1_000_000_000_000 <= self.real_camera_x <= 1_000_000_000_000,
            ;
            assert(k * SIZE == self.map_index * SIZE + shift * SIZE) by (nonlinear_arith)
                requires
                    k == self.map_index + shift,
            ;
            lemma_fundamental_div_mod_converse(xf + k * SIZE, SIZE as int, k, xf as int);
        }
        xf + (self.map_index + shift) * SIZE
    }
}

/// Projecting a point twice gives what projecting it once gives.
pub proof fn lemma_update_idempotent(scroll: MapScroll, x: int)
    requires
        scroll.wf(),
    ensures
        scroll.update_spec(scroll.update_spec(x)) == scroll.update_spec(x),
{
    let xf = x % (SIZE as int);
    let k = scroll.map_index + scroll.shift_spec(xf);
    lemma_fundamental_div_mod_converse(xf + k * SIZE, SIZE as int, k, xf);
}

/// A projected point is never further than half a world length from the
/// camera, and stands for the same point of the circle as `x`.
pub proof fn lemma_update_near_camera(scroll: MapScroll, x: int)
    requires
        scroll.wf(),
    ensures
        -HALF_SIZE <= scroll.update_spec(x) - scroll.real_camera_x <= HALF_SIZE,
        scroll.update_spec(x) % (SIZE as int) == x % (SIZE as int),
{
    let xf = x % (SIZE as int);
    let shift = scroll.shift_spec(xf);
    let k = scroll.map_index + shift;
    assert(k * SIZE == scroll.map_index * SIZE + shift * SIZE) by (nonlinear_arith)
        requires
            k == scroll.map_index + shift,
    ;
    lemma_fundamental_div_mod_converse(xf + k * SIZE, SIZE as int, k, xf);
}

/// Projects the x of every scrolling entity next to the camera, and hands out
/// the wrap context of the frame.
pub fn scroll(camera_x: i64, positions: &mut Vec<Vec2>) -> (context: MapScroll)
    requires
        -MAX_CAMERA <= camera_x <= MAX_CAMERA,
    ensures
        context.wf(),
        context.real_camera_x == camera_x,
        context == MapScroll::context(camera_x as int),
        final(positions).len() == old(positions).len(),
        forall|i: int|
            0 <= i < old(positions).len() ==> {
                &&& (#[trigger] final(positions)[i]).x == context.update_spec(
                    old(positions)[i].x as int,
                )
                &&& final(positions)[i].y == old(positions)[i].y
                &&& -HALF_SIZE <= final(positions)[i].x - camera_x <= HALF_SIZE
            },
{
    let context = MapScroll::new(camera_x);
    let mut i: usize = 0;
    while i < positions.len()
        invariant
            0 <= i <= positions.len(),
            positions.len() == old(positions).len(),
            context.wf(),
            context.real_camera_x == camera_x,
            forall|j: int| i <= j < positions.len() ==> positions[j] == old(positions)[j],
            forall|j: int|
                0 <= j < i ==> {
                    &&& (#[trigger] positions[j]).x == context.update_spec(
                        old(positions)[j].x as int,
                    )
                    &&& positions[j].y == old(positions)[j].y
                    &&& -HALF_SIZE <= positions[j].x - camera_x <= HALF_SIZE
                },
        decreases positions.len() - i,
    {
        let x: i64 = context.update(positions[i].x);
        positions[i].x = x;
        i += 1;
    }
    context
}

/// What the minimap needs of a frame: where the world's origin shows on it.
#[derive(Clone, Copy, Debug, PartialEq, Eq, Structural)]
pub struct Ready {
    /// The place of the world's origin across the minimap, in `[0, SIZE)`:
    /// the camera shows in the middle.
    pub offset: i64,
}

impl Ready {
    /// The place of the world's origin on the minimap of a camera at
    /// `camera_x`.
    pub open spec fn offset_spec(camera_x: int) -> int {
        (-(camera_x + HALF_SIZE)) % (SIZE as int)
    }

    /// The place of `x` across the minimap, in `[0, SIZE)`.
    pub open spec fn minimap_x_spec(self, x: int) -> int {
        (x + self.offset) % (SIZE as int)
    }

    /// The minimap of a camera at `camera_x`.
    pub fn new(camera_x: i64) -> (r: Ready)
        requires
            -MAX_COORD <= camera_x <= MAX_COORD,
        ensures
            r.offset == Ready::offset_spec(camera_x as int),
            0 <= r.offset < SIZE,
    {
        Ready { offset: my_fract(-(camera_x + HALF_SIZE), SIZE) }
    }

    /// Where a point of the world shows across the minimap.
    pub fn minimap_x(&self, x: i64) -> (r: i64)
        requires
            0 <= self.offset < SIZE,
            -MAX_COORD <= x <= MAX_COORD,
        ensures
            r == self.minimap_x_spec(x as int),
            0 <= r < SIZE,
    {
        my_fract(x + self.offset, SIZE)
    }
}

/// Whether `x` lies within a window of the given width centred on the camera,
/// both edges included.
pub open spec fn visible_spec(x: int, camera_x: int, window_width: int) -> bool {
    -window_width <= 2 * (x - camera_x) <= window_width
}

} // verus!
