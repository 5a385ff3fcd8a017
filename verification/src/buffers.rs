//! Buffers of colored points.
use vstd::prelude::*;

verus! {

/// A buffer is a container of colored points.
/// It is stored as a pair of parallel vectors of points and colors.
/// The type is generic because this is used both for containing multivectors
/// when computing points and the more compact vectors when writing points to
/// a file
#[derive(Clone)]
pub struct Buffer<T: Clone> {
    points: Vec<T>,
    colors: Vec<T>,
    feature_ids: Vec<u16>,
    iterations: Vec<u64>,
    point_ids: Vec<u16>,
    last_xforms: Vec<u8>,
}

impl<T: Clone> Buffer<T> {
    pub closed spec fn points_view(&self) -> Seq<T> {
        self.points@
    }

    pub closed spec fn colors_view(&self) -> Seq<T> {
        self.colors@
    }

    pub closed spec fn feature_ids_view(&self) -> Seq<u16> {
        self.feature_ids@
    }

    pub closed spec fn iterations_view(&self) -> Seq<u64> {
        self.iterations@
    }

    pub closed spec fn point_ids_view(&self) -> Seq<u16> {
        self.point_ids@
    }

    pub closed spec fn last_xforms_view(&self) -> Seq<u8> {
        self.last_xforms@
    }

    /// Every point has a color.
    pub open spec fn wf(&self) -> bool {
        self.points_view().len() == self.colors_view().len()
    }

    /// An empty buffer
    pub fn new() -> (b: Self)
        ensures
            b.wf(),
            b.points_view() == Seq::<T>::empty(),
            b.colors_view() == Seq::<T>::empty(),
            b.feature_ids_view() == Seq::<u16>::empty(),
            b.iterations_view() == Seq::<u64>::empty(),
            b.point_ids_view() == Seq::<u16>::empty(),
            b.last_xforms_view() == Seq::<u8>::empty(),
    {
        Self {
            points: Vec::new(),
            colors: Vec::new(),
            feature_ids: Vec::new(),
            iterations: Vec::new(),
            point_ids: Vec::new(),
            last_xforms: Vec::new(),
        }
    }

    /// Construct from parallel vectors of points and colors, which must
    /// have the same length
    pub fn from_vectors(points: Vec<T>, colors: Vec<T>) -> (b: Self)
        requires
            points@.len() == colors@.len(),
        ensures
            b.wf(),
            b.points_view() == points@,
            b.colors_view() == colors@,
            b.feature_ids_view() == Seq::<u16>::empty(),
            b.iterations_view() == Seq::<u64>::empty(),
            b.point_ids_view() == Seq::<u16>::empty(),
            b.last_xforms_view() == Seq::<u8>::empty(),
    {
        Self {
            points,
            colors,
            feature_ids: Vec::new(),
            iterations: Vec::new(),
            point_ids: Vec::new(),
            last_xforms: Vec::new(),
        }
    }

    /// Remove all points and colors
    pub fn clear(&mut self)
        ensures
            final(self).wf(),
            final(self).points_view() == Seq::<T>::empty(),
            final(self).colors_view() == Seq::<T>::empty(),
            final(self).feature_ids_view() == old(self).feature_ids_view(),
            final(self).iterations_view() == old(self).iterations_view(),
            final(self).point_ids_view() == old(self).point_ids_view(),
            final(self).last_xforms_view() == old(self).last_xforms_view(),
    {
        self.points.clear();
        self.colors.clear();
    }

    /// Return the list of points without colors
    pub fn get_points(&self) -> (points: &Vec<T>)
        ensures
            points@ == self.points_view(),
    {
        &self.points
    }

    /// Return the list of colors without points
    pub fn get_colors(&self) -> (colors: &Vec<T>)
        ensures
            colors@ == self.colors_view(),
    {
        &self.colors
    }

    /// Return the list of feature IDs
    pub fn get_feature_ids(&self) -> (ids: &Vec<u16>)
        ensures
            ids@ == self.feature_ids_view(),
    {
        &self.feature_ids
    }

    /// Return the list of iteration IDs
    pub fn get_iterations(&self) -> (iterations: &Vec<u64>)
        ensures
            iterations@ == self.iterations_view(),
    {
        &self.iterations
    }

    /// Return the list of last transformation indexes
    pub fn get_last_xforms(&self) -> (xforms: &Vec<u8>)
        ensures
            xforms@ == self.last_xforms_view(),
    {
        &self.last_xforms
    }

    /// Add a new point to the buffer
    pub fn add(&mut self, point: T, color: T)
        ensures
            final(self).points_view() == old(self).points_view().push(point),
            final(self).colors_view() == old(self).colors_view().push(color),
            final(self).feature_ids_view() == old(self).feature_ids_view(),
            final(self).iterations_view() == old(self).iterations_view(),
            final(self).point_ids_view() == old(self).point_ids_view(),
            final(self).last_xforms_view() == old(self).last_xforms_view(),
    {
        self.points.push(point);
        self.colors.push(color);
    }

    /// How many points are in this buffer?
    pub fn len(&self) -> (n: usize)
        ensures
            n == self.points_view().len(),
    {
        self.points.len()
    }

    /// Get an iterator over this buffer's (point, color) pairs
    pub fn points_iter(&self) -> (iter: BufferIterator<'_, T>)
        requires
            self.wf(),
        ensures
            iter.wf(),
            iter.points_view() == self.points_view(),
            iter.colors_view() == self.colors_view(),
            iter.index() == 0,
    {
        BufferIterator { points: &self.points, colors: &self.colors, index: 0 }
    }
}

/// Iterate over a buffer's (point, color) pairs in read-only fashion
pub struct BufferIterator<'a, T: Clone> {
    points: &'a Vec<T>,
    colors: &'a Vec<T>,
    index: usize,
}

impl<'a, T: Clone> BufferIterator<'a, T> {
    pub closed spec fn points_view(&self) -> Seq<T> {
        self.points@
    }

    pub closed spec fn colors_view(&self) -> Seq<T> {
        self.colors@
    }

    /// How many pairs were handed out so far
    pub closed spec fn index(&self) -> int {
        self.index as int
    }

    pub open spec fn wf(&self) -> bool {
        &&& self.points_view().len() == self.colors_view().len()
        &&& 0 <= self.index() <= self.points_view().len()
    }

    /// The next (point, color) pair, or `None` once all were handed out
    pub fn next(&mut self) -> (item: Option<(&'a T, &'a T)>)
        requires
            old(self).wf(),
        ensures
            final(self).wf(),
            final(self).points_view() == old(self).points_view(),
            final(self).colors_view() == old(self).colors_view(),
            old(self).index() < old(self).points_view().len() ==> {
                &&& final(self).index() == old(self).index() + 1
                &&& item == Some(
                    (
                        &old(self).points_view()[old(self).index()],
                        &old(self).colors_view()[old(self).index()],
                    ),
                )
            },
            old(self).index() == old(self).points_view().len() ==> {
                &&& final(self).index() == old(self).index()
                &&& item == None::<(&'a T, &'a T)>
            },
    {
        if self.index >= self.points.len() {
            return None;
        }
        let pos = &self.points[self.index];
        let color = &self.colors[self.index];
        self.index += 1;
        Some((pos, color))
    }
}

} // verus!
