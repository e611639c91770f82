//! Bounding box of the pixels changed since the last flush.

use vstd::prelude::*;

verus! {

/// A half-open rectangle of pixel coordinates: columns `xmin..xmax`, rows
/// `ymin..ymax`.
pub struct Region {
    pub xmin: int,
    pub xmax: int,
    pub ymin: int,
    pub ymax: int,
}

impl Region {
    /// The rectangle holds at least one pixel.
    pub open spec fn wf(self) -> bool {
        0 <= self.xmin < self.xmax && 0 <= self.ymin < self.ymax
    }

    pub open spec fn width(self) -> int {
        self.xmax - self.xmin
    }

    pub open spec fn height(self) -> int {
        self.ymax - self.ymin
    }

    pub open spec fn contains(self, x: int, y: int) -> bool {
        self.xmin <= x < self.xmax && self.ymin <= y < self.ymax
    }

    /// The rectangle lies on a grid of `width` columns and `height` rows.
    pub open spec fn within(self, width: int, height: int) -> bool {
        self.wf() && self.xmax <= width && self.ymax <= height
    }

    /// The 1x1 rectangle at `(x, y)`.
    pub open spec fn point(x: int, y: int) -> Region {
        Region { xmin: x, xmax: x + 1, ymin: y, ymax: y + 1 }
    }

    /// The smallest rectangle that holds `self` and the pixel `(x, y)`.
    pub open spec fn grow(self, x: int, y: int) -> Region {
        Region {
            xmin: if x < self.xmin { x } else { self.xmin },
            xmax: if x + 1 > self.xmax { x + 1 } else { self.xmax },
            ymin: if y < self.ymin { y } else { self.ymin },
            ymax: if y + 1 > self.ymax { y + 1 } else { self.ymax },
        }
    }
}

/// What a tracker covers once `(x, y)` is marked on top of `before`.
pub open spec fn cover(before: Option<Region>, x: int, y: int) -> Region {
    match before {
        None => Region::point(x, y),
        Some(r) => r.grow(x, y),
    }
}

/// What a fresh tracker covers after the coordinates in `marks` were marked
/// one after the other.
pub open spec fn marked(marks: Seq<(u16, u16)>) -> Option<Region>
    decreases marks.len(),
{
    if marks.len() == 0 {
        None
    } else {
        Some(cover(marked(marks.drop_last()), marks.last().0 as int, marks.last().1 as int))
    }
}

/// `r` is the tight bounding box of `marks`: it holds every marked pixel, and
/// each of its four edges touches one of them.
pub open spec fn is_bounding_box(r: Region, marks: Seq<(u16, u16)>) -> bool {
    &&& r.wf()
    &&& forall|i: int|
        0 <= i < marks.len() ==> r.contains((#[trigger] marks[i]).0 as int, marks[i].1 as int)
    &&& exists|i: int| 0 <= i < marks.len() && (#[trigger] marks[i]).0 == r.xmin
    &&& exists|i: int| 0 <= i < marks.len() && (#[trigger] marks[i]).0 + 1 == r.xmax
    &&& exists|i: int| 0 <= i < marks.len() && (#[trigger] marks[i]).1 == r.ymin
    &&& exists|i: int| 0 <= i < marks.len() && (#[trigger] marks[i]).1 + 1 == r.ymax
}

/// Marking one more pixel extends what the earlier marks cover by that pixel.
pub proof fn lemma_marked_push(marks: Seq<(u16, u16)>, x: u16, y: u16)
    ensures
        marked(marks.push((x, y))) == Some(cover(marked(marks), x as int, y as int)),
{
    assert(marks.push((x, y)).drop_last() =~= marks);
}

/// Whatever pixels are marked on a fresh tracker, in whatever order, it ends
/// up covering exactly their tight bounding box; it covers nothing only when
/// nothing was marked.
pub proof fn lemma_marked_is_bounding_box(marks: Seq<(u16, u16)>)
    ensures
        marked(marks) is None <==> marks.len() == 0,
        marked(marks) matches Some(r) ==> is_bounding_box(r, marks),
    decreases marks.len(),
{
    if marks.len() > 0 {
        let earlier = marks.drop_last();
        let n = marks.len() - 1;
        let r = marked(marks)->0;
        lemma_marked_is_bounding_box(earlier);
        assert(forall|i: int| 0 <= i < n ==> earlier[i] == marks[i]);
        match marked(earlier) {
            None => {
                assert(marks[n].0 == r.xmin && marks[n].0 + 1 == r.xmax);
                assert(marks[n].1 == r.ymin && marks[n].1 + 1 == r.ymax);
            },
            Some(e) => {
                let i_xmin = choose|i: int| 0 <= i < n && (#[trigger] earlier[i]).0 == e.xmin;
                let i_xmax = choose|i: int| 0 <= i < n && (#[trigger] earlier[i]).0 + 1 == e.xmax;
                let i_ymin = choose|i: int| 0 <= i < n && (#[trigger] earlier[i]).1 == e.ymin;
                let i_ymax = choose|i: int| 0 <= i < n && (#[trigger] earlier[i]).1 + 1 == e.ymax;
                let j_xmin = if marks[n].0 < e.xmin { n } else { i_xmin };
                let j_xmax = if marks[n].0 + 1 > e.xmax { n } else { i_xmax };
                let j_ymin = if marks[n].1 < e.ymin { n } else { i_ymin };
                let j_ymax = if marks[n].1 + 1 > e.ymax { n } else { i_ymax };
                assert(marks[j_xmin].0 == r.xmin);
                assert(marks[j_xmax].0 + 1 == r.xmax);
                assert(marks[j_ymin].1 == r.ymin);
                assert(marks[j_ymax].1 + 1 == r.ymax);
                assert forall|i: int| 0 <= i < marks.len() implies r.contains(
                    (#[trigger] marks[i]).0 as int,
                    marks[i].1 as int,
                ) by {
                    if i < n {
                        assert(e.contains(earlier[i].0 as int, earlier[i].1 as int));
                    }
                }
            },
        }
    }
}

/// Accumulates the bounding box of marked pixels. The empty state is the one
/// with an exclusive right edge of zero, which no marked pixel can produce.
pub struct DirtyArea {
    xmin: u16,
    xmax: u16,
    ymin: u16,
    ymax: u16,
}

impl View for DirtyArea {
    type V = Option<Region>;

    closed spec fn view(&self) -> Option<Region> {
        if self.xmax == 0 {
            None
        } else {
            Some(
                Region {
                    xmin: self.xmin as int,
                    xmax: self.xmax as int,
                    ymin: self.ymin as int,
                    ymax: self.ymax as int,
                },
            )
        }
    }
}

impl DirtyArea {
    #[verifier::type_invariant]
    pub closed spec fn inv(&self) -> bool {
        if self.xmax == 0 {
            self.xmin == 0 && self.ymin == 0 && self.ymax == 0
        } else {
            self.xmin < self.xmax && self.ymin < self.ymax
        }
    }

    /// A tracker that covers nothing.
    pub fn new() -> (area: Self)
        ensures
            area@ is None,
    {
        Self { xmin: 0, xmax: 0, ymin: 0, ymax: 0 }
    }

    /// Left edge of the covered rectangle, zero when nothing is covered.
    pub fn x0(&self) -> (x: u16)
        ensures
            x == match self@ {
                Some(r) => r.xmin,
                None => 0,
            },
    {
        proof {
            use_type_invariant(self);
        }
        self.xmin
    }

    /// Top edge of the covered rectangle, zero when nothing is covered.
    pub fn y0(&self) -> (y: u16)
        ensures
            y == match self@ {
                Some(r) => r.ymin,
                None => 0,
            },
    {
        proof {
            use_type_invariant(self);
        }
        self.ymin
    }

    /// Number of covered columns, zero when nothing is covered.
    pub fn width(&self) -> (w: u16)
        ensures
            w == match self@ {
                Some(r) => r.width(),
                None => 0,
            },
    {
        proof {
            use_type_invariant(self);
        }
        self.xmax - self.xmin
    }

    /// Number of covered rows, zero when nothing is covered.
    pub fn height(&self) -> (h: u16)
        ensures
            h == match self@ {
                Some(r) => r.height(),
                None => 0,
            },
    {
        proof {
            use_type_invariant(self);
        }
        self.ymax - self.ymin
    }

    /// Forgets everything that was marked.
    pub fn clear(&mut self)
        ensures
            final(self)@ is None,
    {
        *self = Self { xmin: 0, xmax: 0, ymin: 0, ymax: 0 };
    }

    /// Whether anything was marked since the tracker was made or cleared.
    pub fn is_dirty(&self) -> (dirty: bool)
        ensures
            dirty == (self@ is Some),
            self@ matches Some(r) ==> r.wf() && r.xmax <= u16::MAX && r.ymax <= u16::MAX,
    {
        proof {
            use_type_invariant(self);
        }
        self.xmax != 0
    }

    /// Grows the covered rectangle so that it holds the pixel `(x, y)`.
    pub fn mark_dirty(&mut self, x: u16, y: u16)
        requires
            x < u16::MAX,
            y < u16::MAX,
        ensures
            final(self)@ == Some(cover(old(self)@, x as int, y as int)),
    {
        proof {
            use_type_invariant(&*self);
        }
        if self.is_dirty() {
            *self = Self {
                xmin: if x < self.xmin { x } else { self.xmin },
                xmax: if x + 1 > self.xmax { x + 1 } else { self.xmax },
                ymin: if y < self.ymin { y } else { self.ymin },
                ymax: if y + 1 > self.ymax { y + 1 } else { self.ymax },
            };
        } else {
            *self = Self { xmin: x, xmax: x + 1, ymin: y, ymax: y + 1 };
        }
    }
}

} // verus!
