use vstd::prelude::*;

use crate::geometry::{cvt, Point, PointValue};
use crate::tank::{lemma_out_of_range_iff_uncovered, FishTank};

verus! {

/// Color of the water, in RGB565.
pub const BACKGROUND: u16 = 0x1f;

/// Point `a` comes before point `b` in row-major order.
pub open spec fn precedes(a: Point, b: Point) -> bool {
    a.y < b.y || (a.y == b.y && a.x < b.x)
}

/// The color painted for a composite value: the water where nothing opaque
/// shows.
pub open spec fn paint(v: PointValue) -> u16 {
    match v {
        PointValue::Opaque(c) => c,
        _ => BACKGROUND,
    }
}

/// A partial-redraw pass over a tank: visits the screen in row-major order
/// and yields only the points that some fish's bounding box covers.
pub struct TankIterator<'a> {
    pub tank: &'a FishTank<'a>,
    pub position: Point,
}

impl<'a> TankIterator<'a> {
    /// The point lies on the tank's screen.
    pub open spec fn on_tank(&self, p: Point) -> bool {
        &&& 0 <= p.x < self.tank.size.width
        &&& 0 <= p.y < self.tank.size.height
    }

    /// Some bounding box covers the point, so a pass repaints it.
    pub open spec fn covered(&self, p: Point) -> bool {
        !(self.tank.sample(p.x as int, p.y as int) is OutOfRange)
    }

    /// The cursor is on the screen, or at the start of the row past it.
    pub open spec fn wf(&self) -> bool {
        &&& self.tank.wf()
        &&& 0 <= self.position.x < self.tank.size.width
        &&& 0 <= self.position.y <= self.tank.size.height
        &&& self.position.y == self.tank.size.height ==> self.position.x == 0
    }

    /// The point after `p` in row-major order.
    pub open spec fn succ(&self, p: Point) -> Point {
        if p.x + 1 >= self.tank.size.width {
            Point { x: 0, y: (p.y + 1) as i32 }
        } else {
            Point { x: (p.x + 1) as i32, y: p.y }
        }
    }

    /// A pass over `fish_tank` from its first point.
    pub fn new(fish_tank: &'a FishTank<'a>) -> (r: TankIterator<'a>)
        requires
            fish_tank.wf(),
        ensures
            r.wf(),
            r.tank == fish_tank,
            r.position.x == 0,
            r.position.y == 0,
    {
        assert(fish_tank.fish@[0].wf());
        TankIterator { tank: fish_tank, position: Point::new(0, 0) }
    }

    /// The next covered point from the cursor on, with the color to paint
    /// there, and the cursor moved past it; `None` once the screen is done.
    pub fn next(&mut self) -> (r: Option<(Point, u16)>)
        requires
            old(self).wf(),
        ensures
            final(self).wf(),
            final(self).tank == old(self).tank,
            r is None ==> final(self).position.y == final(self).tank.size.height,
            r is None ==> forall|q: Point|
                #![trigger old(self).covered(q)]
                old(self).on_tank(q) && !precedes(q, old(self).position) ==> !old(self).covered(q),
            r matches Some((p, c)) ==> {
                &&& old(self).on_tank(p)
                &&& !precedes(p, old(self).position)
                &&& old(self).covered(p)
                &&& c == paint(old(self).tank.sample(p.x as int, p.y as int))
                &&& final(self).position == old(self).succ(p)
            },
            r matches Some((p, c)) ==> forall|q: Point|
                #![trigger old(self).covered(q)]
                old(self).on_tank(q) && !precedes(q, old(self).position) && precedes(q, p)
                    ==> !old(self).covered(q),
    {
        let ghost start = self.position;
        loop
            invariant
                self.wf(),
                self.tank == old(self).tank,
                !precedes(self.position, start),
                start == old(self).position,
                forall|q: Point|
                    #![trigger old(self).covered(q)]
                    old(self).on_tank(q) && !precedes(q, start) && precedes(q, self.position)
                        ==> !old(self).covered(q),
            decreases self.tank.size.height - self.position.y, self.tank.size.width
                - self.position.x,
        {
            if self.position.y >= cvt(self.tank.size.height) {
                return None;
            } else {
                let here = self.position;
                let pv = self.tank.get_point(&here);
                let ret = match pv {
                    PointValue::OutOfRange => None,
                    PointValue::Transparent => Some((here, BACKGROUND)),
                    PointValue::Opaque(color) => Some((here, color)),
                };
                self.position.x = self.position.x + 1;
                if self.position.x >= cvt(self.tank.size.width) {
                    self.position.x = 0;
                    self.position.y = self.position.y + 1;
                }
                if ret.is_some() {
                    return ret;
                }
            }
        }
    }
}

/// A pass repaints a point exactly when some fish's bounding box holds it:
/// the points `next` yields are the screen points inside the union of the
/// boxes, and the points it skips lie outside every box.
pub proof fn lemma_covered_iff_in_a_box(it: TankIterator, p: Point)
    ensures
        it.covered(p) <==> exists|i: int|
            0 <= i < it.tank.fish@.len() && #[trigger] it.tank.fish@[i].contains(
                p.x as int,
                p.y as int,
            ),
{
    lemma_out_of_range_iff_uncovered(it.tank.fish@, p.x as int, p.y as int, it.tank.fish@.len() as int);
}

} // verus!
