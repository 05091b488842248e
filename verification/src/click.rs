//! Click regions: rectangles registered while rendering, hit-tested when a
//! mouse event arrives.
use vstd::prelude::*;
use crate::geometry::Rect;

verus! {

/// Whether the cell (`col`, `row`) lies inside `r`.
pub open spec fn rect_contains(r: Rect, col: u16, row: u16) -> bool {
    col >= r.x && col < r.x + r.width && row >= r.y && row < r.y + r.height
}

/// A rectangular area that answers clicks with the data attached to it.
#[derive(Debug, Clone)]
pub struct ClickRegion<T> {
    pub area: Rect,
    pub data: T,
}

impl<T> ClickRegion<T> {
    /// A click region over `area` carrying `data`.
    pub fn new(area: Rect, data: T) -> (r: Self)
        ensures
            r.area == area,
            r.data == data,
    {
        ClickRegion { area, data }
    }

    /// Whether the cell (`col`, `row`) lies inside the region. The right and
    /// bottom edges must not overflow `u16`.
    pub fn contains(&self, col: u16, row: u16) -> (b: bool)
        requires
            self.area.fits(),
        ensures
            b == rect_contains(self.area, col, row),
    {
        col >= self.area.x && col < self.area.x + self.area.width && row >= self.area.y && row
            < self.area.y + self.area.height
    }
}

/// Every region's rectangle fits in `u16` coordinates.
pub open spec fn regions_fit<T>(s: Seq<ClickRegion<T>>) -> bool {
    forall|i: int| 0 <= i < s.len() ==> #[trigger] s[i].area.fits()
}

/// The index of the first region that contains the cell, if any.
pub open spec fn first_hit<T>(s: Seq<ClickRegion<T>>, col: u16, row: u16, r: Option<usize>) -> bool {
    match r {
        Some(i) => {
            &&& i < s.len()
            &&& rect_contains(s[i as int].area, col, row)
            &&& forall|j: int| 0 <= j < i ==> !rect_contains(#[trigger] s[j].area, col, row)
        },
        None => forall|j: int| 0 <= j < s.len() ==> !rect_contains(#[trigger] s[j].area, col, row),
    }
}

/// The index of the first region in `regions` that contains the cell.
pub fn find_hit<T>(regions: &[ClickRegion<T>], col: u16, row: u16) -> (r: Option<usize>)
    requires
        regions_fit(regions@),
    ensures
        first_hit(regions@, col, row, r),
{
    let mut i: usize = 0;
    while i < regions.len()
        invariant
            i <= regions.len(),
            regions_fit(regions@),
            forall|j: int| 0 <= j < i ==> !rect_contains(#[trigger] regions@[j].area, col, row),
        decreases regions.len() - i,
    {
        if regions[i].contains(col, row) {
            return Some(i);
        }
        i = i + 1;
    }
    None
}

/// What a click on (`col`, `row`) answers over `regions`: the data of the
/// first region that contains the cell, cloned, or `None` where none does.
pub open spec fn click_answer<A: Clone>(regions: Seq<ClickRegion<A>>, col: u16, row: u16, r: Option<A>) -> bool {
    match r {
        Some(d) => exists|i: int|
            #![trigger regions[i]]
            0 <= i < regions.len()
            && rect_contains(regions[i].area, col, row)
            && (forall|j: int| 0 <= j < i ==> !rect_contains(#[trigger] regions[j].area, col, row))
            && vstd::pervasive::strictly_cloned(regions[i].data, d),
        None => forall|j: int| 0 <= j < regions.len() ==> !rect_contains(#[trigger] regions[j].area, col, row),
    }
}

/// A component that answers mouse clicks through its click regions.
pub trait Clickable {
    /// What a click produces.
    type ClickAction: Clone;

    /// The component's click regions, in priority order.
    fn click_regions(&self) -> &[ClickRegion<Self::ClickAction>];

    /// The data of the first region that contains the cell, cloned; `None`
    /// where no region contains it. The regions are those that
    /// `click_regions` hands out.
    fn handle_click(&self, col: u16, row: u16) -> (r: Option<Self::ClickAction>)
        ensures
            exists|rs: &[ClickRegion<Self::ClickAction>]|
                call_ensures(Self::click_regions, (self,), rs) && #[trigger] click_answer(rs@, col, row, r),
    {
        let regions = self.click_regions();
        assert(call_ensures(Self::click_regions, (self,), regions));
        let (c, w) = (col as u32, row as u32);
        let mut i: usize = 0;
        while i < regions.len()
            invariant
                i <= regions.len(),
                call_ensures(Self::click_regions, (self,), regions),
                c == col as u32,
                w == row as u32,
                forall|j: int| 0 <= j < i ==> !rect_contains(#[trigger] regions@[j].area, col, row),
            decreases regions.len() - i,
        {
            let a = regions[i].area;
            if c >= a.x as u32 && c < a.x as u32 + a.width as u32 && w >= a.y as u32 && w < a.y as u32 + a.height as u32 {
                let d = regions[i].data.clone();
                assert(rect_contains(regions@[i as int].area, col, row));
                assert(click_answer(regions@, col, row, Some(d)));
                return Some(d);
            }
            i = i + 1;
        }
        assert(click_answer(regions@, col, row, None));
        None
    }
}

/// Collects click regions during rendering and hit-tests clicks against
/// them; the first registered region wins where regions overlap.
#[derive(Debug, Clone)]
pub struct ClickRegionRegistry<T> {
    regions: Vec<ClickRegion<T>>,
}

impl<T> ClickRegionRegistry<T> {
    /// The registered regions, in registration order.
    pub closed spec fn regions_view(&self) -> Seq<ClickRegion<T>> {
        self.regions@
    }

    /// An empty registry.
    pub fn new() -> (r: Self)
        ensures
            r.regions_view() == Seq::<ClickRegion<T>>::empty(),
    {
        ClickRegionRegistry { regions: Vec::new() }
    }

    /// An empty registry with room for `capacity` regions.
    pub fn with_capacity(capacity: usize) -> (r: Self)
        ensures
            r.regions_view() == Seq::<ClickRegion<T>>::empty(),
    {
        ClickRegionRegistry { regions: Vec::with_capacity(capacity) }
    }

    /// Removes every region.
    pub fn clear(&mut self)
        ensures
            final(self).regions_view() == Seq::<ClickRegion<T>>::empty(),
    {
        self.regions.clear();
    }

    /// Registers a region after the existing ones.
    pub fn register(&mut self, area: Rect, data: T)
        ensures
            final(self).regions_view() == old(self).regions_view().push(
                ClickRegion { area, data },
            ),
    {
        self.regions.push(ClickRegion::new(area, data));
    }

    /// The data of the first registered region that contains the cell.
    pub fn handle_click(&self, col: u16, row: u16) -> (r: Option<&T>)
        requires
            regions_fit(self.regions_view()),
        ensures
            match r {
                Some(d) => exists|i: usize|
                    first_hit(self.regions_view(), col, row, Some(i)) && *d
                        == self.regions_view()[i as int].data,
                None => first_hit(self.regions_view(), col, row, None),
            },
    {
        match find_hit(self.regions.as_slice(), col, row) {
            Some(i) => Some(&self.regions[i].data),
            None => None,
        }
    }

    /// The registered regions.
    pub fn regions(&self) -> (r: &[ClickRegion<T>])
        ensures
            r@ == self.regions_view(),
    {
        self.regions.as_slice()
    }

    /// Whether no region is registered.
    pub fn is_empty(&self) -> (b: bool)
        ensures
            b == (self.regions_view().len() == 0),
    {
        self.regions.len() == 0
    }

    /// The number of registered regions.
    pub fn len(&self) -> (n: usize)
        ensures
            n == self.regions_view().len(),
    {
        self.regions.len()
    }
}

impl<T> Default for ClickRegionRegistry<T> {
    fn default() -> (r: Self)
        ensures
            r.regions_view() == Seq::<ClickRegion<T>>::empty(),
    {
        Self::new()
    }
}

} // verus!
