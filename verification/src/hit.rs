use vstd::prelude::*;
use core::marker::PhantomData;
use crate::utils::Entity;
use crate::utils::Vec2;

verus! {

/// An axis-aligned rectangle given by its edges, counted in half ticks so that
/// the edges of a box with any centre and any size are whole numbers.
#[derive(Clone, Copy, Debug, PartialEq, Eq, Structural)]
pub struct Rect {
    pub min_x: i128,
    pub max_x: i128,
    pub min_y: i128,
    pub max_y: i128,
}

pub open spec fn max_int(a: int, b: int) -> int {
    if a >= b {
        a
    } else {
        b
    }
}

pub open spec fn min_int(a: int, b: int) -> int {
    if a <= b {
        a
    } else {
        b
    }
}

impl Rect {
    /// The box with the given centre and full extents.
    pub open spec fn of(center: Vec2, bound: Vec2) -> Rect {
        Rect {
            min_x: (2 * center.x - bound.x) as i128,
            max_x: (2 * center.x + bound.x) as i128,
            min_y: (2 * center.y - bound.y) as i128,
            max_y: (2 * center.y + bound.y) as i128,
        }
    }

    /// The part that two rectangles share, if it has positive width and
    /// positive height.
    pub open spec fn overlap(self, other: Rect) -> Option<Rect> {
        let min_x = max_int(self.min_x as int, other.min_x as int);
        let max_x = min_int(self.max_x as int, other.max_x as int);
        let min_y = max_int(self.min_y as int, other.min_y as int);
        let max_y = min_int(self.max_y as int, other.max_y as int);
        if min_x < max_x && min_y < max_y {
            Some(
                Rect {
                    min_x: min_x as i128,
                    max_x: max_x as i128,
                    min_y: min_y as i128,
                    max_y: max_y as i128,
                },
            )
        } else {
            None
        }
    }

    /// The ranges that two rectangles cover on the x axis, or those on the y
    /// axis, share no stretch of positive length.
    pub open spec fn apart(self, other: Rect) -> bool {
        ||| self.max_x <= other.min_x
        ||| other.max_x <= self.min_x
        ||| self.max_y <= other.min_y
        ||| other.max_y <= self.min_y
    }

    /// `self` has positive width and height and lies inside `other`.
    pub open spec fn inside(self, other: Rect) -> bool {
        &&& self.min_x < self.max_x
        &&& self.min_y < self.max_y
        &&& other.min_x <= self.min_x
        &&& self.max_x <= other.max_x
        &&& other.min_y <= self.min_y
        &&& self.max_y <= other.max_y
    }

    /// The rectangle of a box with the given centre and full extents.
    pub fn from_center(center: Vec2, bound: Vec2) -> (r: Rect)
        ensures
            r == Rect::of(center, bound),
    {
        let cx: i128 = center.x as i128;
        let cy: i128 = center.y as i128;
        let bx: i128 = bound.x as i128;
        let by: i128 = bound.y as i128;
        Rect { min_x: 2 * cx - bx, max_x: 2 * cx + bx, min_y: 2 * cy - by, max_y: 2 * cy + by }
    }

    /// The shared part of two rectangles, or `None` where they share no area.
    pub fn intersection(&self, other: &Rect) -> (r: Option<Rect>)
        ensures
            r == self.overlap(*other),
    {
        let min_x: i128 = if self.min_x >= other.min_x { self.min_x } else { other.min_x };
        let max_x: i128 = if self.max_x <= other.max_x { self.max_x } else { other.max_x };
        let min_y: i128 = if self.min_y >= other.min_y { self.min_y } else { other.min_y };
        let max_y: i128 = if self.max_y <= other.max_y { self.max_y } else { other.max_y };
        if min_x < max_x && min_y < max_y {
            Some(Rect { min_x, max_x, min_y, max_y })
        } else {
            None
        }
    }
}

/// The overlap of box `a` with box `b`.
pub open spec fn box_intersection_spec(a: Vec2, a_bound: Vec2, b: Vec2, b_bound: Vec2) -> Option<
    Rect,
> {
    Rect::of(a, a_bound).overlap(Rect::of(b, b_bound))
}

/// The overlap of box `c` with what boxes `a` and `b` share.
pub open spec fn hit_spec(
    a: Vec2,
    a_bound: Vec2,
    b: Vec2,
    b_bound: Vec2,
    c: Vec2,
    c_bound: Vec2,
) -> Option<Rect> {
    match box_intersection_spec(a, a_bound, b, b_bound) {
        Some(ab) => ab.overlap(Rect::of(c, c_bound)),
        None => None,
    }
}

/// The overlap rectangle of two axis-aligned boxes, each given by its centre
/// and its full extents; `None` where the overlap has no width or no height.
pub fn box_intersection(a: Vec2, a_bound: Vec2, b: Vec2, b_bound: Vec2) -> (r: Option<Rect>)
    ensures
        r == box_intersection_spec(a, a_bound, b, b_bound),
        Rect::of(a, a_bound).apart(Rect::of(b, b_bound)) ==> r is None,
        Rect::of(b, b_bound).inside(Rect::of(a, a_bound)) ==> r == Some(Rect::of(b, b_bound)),
{
    let ra = Rect::from_center(a, a_bound);
    let rb = Rect::from_center(b, b_bound);
    ra.intersection(&rb)
}

/// The three-way overlap: box `a` is first cut down to what it shares with box
/// `b`, and what is left is tested against box `c`.
pub fn hit(a: Vec2, a_bound: Vec2, b: Vec2, b_bound: Vec2, c: Vec2, c_bound: Vec2) -> (r: Option<
    Rect,
>)
    ensures
        r == hit_spec(a, a_bound, b, b_bound, c, c_bound),
{
    match box_intersection(a, a_bound, b, b_bound) {
        Some(ab) => {
            let rc = Rect::from_center(c, c_bound);
            ab.intersection(&rc)
        },
        None => None,
    }
}

/// Rectangles whose ranges are apart on either axis share nothing.
pub proof fn lemma_apart_never_overlap(a: Rect, b: Rect)
    requires
        a.apart(b),
    ensures
        a.overlap(b) is None,
{
}

/// A rectangle that lies inside another shares all of itself with it,
/// whichever of the two is named first.
pub proof fn lemma_inside_overlap_is_inner(inner: Rect, outer: Rect)
    requires
        inner.inside(outer),
    ensures
        outer.overlap(inner) == Some(inner),
        inner.overlap(outer) == Some(inner),
{
}

/// An object that can strike targets of its category: a live entity with a
/// position and the full extents of its box.
#[derive(Clone, Copy, Debug, PartialEq, Eq, Structural)]
pub struct Striker {
    pub entity: Entity,
    pub position: Vec2,
    pub bound: Vec2,
}

/// The viewport: the camera's centre and the window's full extents.
#[derive(Clone, Copy, Debug, PartialEq, Eq, Structural)]
pub struct Viewport {
    pub center: Vec2,
    pub size: Vec2,
}

/// Whether the part of the striker that the viewport shows overlaps the target.
pub open spec fn strikes(view: Viewport, striker: Striker, target: Vec2, hitbox: Vec2) -> bool {
    hit_spec(view.center, view.size, striker.position, striker.bound, target, hitbox) is Some
}

/// The first striker from index `from` on that strikes the target.
pub open spec fn first_hit(
    view: Viewport,
    strikers: Seq<Striker>,
    from: int,
    target: Vec2,
    hitbox: Vec2,
) -> Option<Entity>
    decreases strikers.len() - from,
{
    if from < 0 || from >= strikers.len() {
        None
    } else if strikes(view, strikers[from], target, hitbox) {
        Some(strikers[from].entity)
    } else {
        first_hit(view, strikers, from + 1, target, hitbox)
    }
}

/// Marks an entity as a target for strikers of category `T`, and holds the one
/// hit recorded for it in this frame.
#[derive(Debug)]
pub struct Hittable<T> {
    pub hitbox: Vec2,
    pub hit_entity: Option<Entity>,
    pub phantom: PhantomData<T>,
}

impl<T> Clone for Hittable<T> {
    fn clone(&self) -> (c: Self)
        ensures
            c == *self,
    {
        Hittable { hitbox: self.hitbox, hit_entity: self.hit_entity, phantom: PhantomData }
    }
}

impl<T> Copy for Hittable<T> {

}

impl<T> Hittable<T> {
    /// A target with the given box and no hit recorded.
    pub fn new(hitbox: Vec2) -> (h: Hittable<T>)
        ensures
            h.hitbox == hitbox,
            h.hit_entity is None,
    {
        Hittable { hitbox, hit_entity: None, phantom: PhantomData }
    }

    /// What `detect` leaves recorded: a hit already there stays; else the
    /// first striker in order that strikes the target, if any.
    pub open spec fn detected(
        self,
        view: Viewport,
        strikers: Seq<Striker>,
        position: Vec2,
    ) -> Option<Entity> {
        match self.hit_entity {
            Some(e) => Some(e),
            None => first_hit(view, strikers, 0, position, self.hitbox),
        }
    }

    /// Scans the strikers in order and records the first whose visible part
    /// overlaps this target at `position`. A hit recorded earlier in the frame
    /// is not overwritten.
    pub fn detect(&mut self, view: Viewport, strikers: &Vec<Striker>, position: Vec2)
        ensures
            final(self).hitbox == old(self).hitbox,
            final(self).hit_entity == old(self).detected(view, strikers@, position),
    {
        if self.hit_entity.is_some() {
            return ;
        }
        let mut i: usize = 0;
        while i < strikers.len()
            invariant
                0 <= i <= strikers.len(),
                *self == *old(self),
                self.hit_entity is None,
                first_hit(view, strikers@, 0, position, self.hitbox) == first_hit(
                    view,
                    strikers@,
                    i as int,
                    position,
                    self.hitbox,
                ),
            decreases strikers.len() - i,
        {
            let s = strikers[i];
            if hit(view.center, view.size, s.position, s.bound, position, self.hitbox).is_some() {
                self.hit_entity = Some(s.entity);
                return ;
            }
            i += 1;
        }
    }

    /// Hands out the hit recorded in this frame and clears the record.
    pub fn take_hit(&mut self) -> (hit: Option<Entity>)
        ensures
            hit == old(self).hit_entity,
            final(self).hit_entity is None,
            final(self).hitbox == old(self).hitbox,
    {
        let hit = self.hit_entity;
        self.hit_entity = None;
        hit
    }
}

/// Runs the detection for every target of one category: target `i` stands at
/// `positions[i]`. Each target ends the call with the hit it already held or,
/// if it held none, with the first striker in order that strikes it.
pub fn detect_hits<T>(
    view: Viewport,
    strikers: &Vec<Striker>,
    positions: &Vec<Vec2>,
    hittables: &mut Vec<Hittable<T>>,
)
    requires
        positions.len() == old(hittables).len(),
    ensures
        final(hittables).len() == old(hittables).len(),
        forall|i: int|
            0 <= i < old(hittables).len() ==> {
                &&& (#[trigger] final(hittables)[i]).hitbox == old(hittables)[i].hitbox
                &&& final(hittables)[i].hit_entity == old(hittables)[i].detected(
                    view,
                    strikers@,
                    positions[i],
                )
            },
{
    let mut i: usize = 0;
    while i < hittables.len()
        invariant
            0 <= i <= hittables.len(),
            hittables.len() == old(hittables).len(),
            positions.len() == hittables.len(),
            forall|j: int|
                0 <= j < i ==> {
                    &&& (#[trigger] hittables[j]).hitbox == old(hittables)[j].hitbox
                    &&& hittables[j].hit_entity == old(hittables)[j].detected(
                        view,
                        strikers@,
                        positions[j],
                    )
                },
            forall|j: int| i <= j < hittables.len() ==> hittables[j] == old(hittables)[j],
        decreases hittables.len() - i,
    {
        hittables[i].detect(view, strikers, positions[i]);
        i += 1;
    }
}

} // verus!
