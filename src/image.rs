use vstd::prelude::*;
use crate::primitives::{Point, Size};

verus! {

/// A native image. `raw` is its address; `is_owned` says whether this value is
/// responsible for releasing it. A frame lent out by a capture is borrowed and
/// is never released through it. The size of a native image is fixed when the
/// image is made, and is kept here beside the handle.
#[derive(Debug)]
pub struct Image {
    pub raw: usize,
    pub is_owned: bool,
    pub size: Size,
}

impl Image {
    /// The result of loading the file at `path`: an owned image where the
    /// native loader gave a handle, else the path as the error.
    pub fn from_loaded(path: &str, raw: usize, size: Size) -> (r: Result<Image, String>)
        ensures
            match r {
                Ok(img) => raw != 0 && img.raw == raw && img.is_owned && img.size == size,
                Err(e) => raw == 0 && e@ == path@,
            },
    {
        if raw != 0 {
            Ok(Image { raw: raw, is_owned: true, size: size })
        } else {
            Err(path.to_string())
        }
    }

    /// A borrowed view of a native image that something else owns; `None` for a
    /// null handle.
    pub fn borrowed(raw: usize, size: Size) -> (r: Option<Image>)
        ensures
            match r {
                Some(img) => raw != 0 && img.raw == raw && !img.is_owned && img.size == size,
                None => raw == 0,
            },
    {
        if raw != 0 {
            Some(Image { raw: raw, is_owned: false, size: size })
        } else {
            None
        }
    }

    /// An image that this value owns, such as a native copy of another one.
    pub fn owned(raw: usize, size: Size) -> (img: Image)
        ensures
            img.raw == raw,
            img.is_owned,
            img.size == size,
    {
        Image { raw: raw, is_owned: true, size: size }
    }

    /// Whether dropping this value must release the native image: only an
    /// owned image is released, and then exactly once, when its owner goes.
    pub fn releases_on_drop(&self) -> (r: bool)
        ensures
            r == self.is_owned,
    {
        self.is_owned
    }

    pub fn size(&self) -> (s: Size)
        ensures
            s == self.size,
    {
        self.size
    }

    pub fn width(&self) -> (w: i32)
        ensures
            w == self.size.width,
    {
        self.size().width
    }

    pub fn height(&self) -> (h: i32)
        ensures
            h == self.size.height,
    {
        self.size().height
    }
}

/// The number of vertices of each polygon, as the native polygon fill reads them.
pub fn point_counts(polygons: &[&[&Point]]) -> (r: Vec<i32>)
    requires
        forall|i: int| 0 <= i < polygons@.len() ==> #[trigger] polygons@[i]@.len() <= i32::MAX,
    ensures
        r@.len() == polygons@.len(),
        forall|i: int| 0 <= i < polygons@.len() ==> r@[i] == #[trigger] polygons@[i]@.len(),
{
    let mut counts: Vec<i32> = Vec::new();
    let mut i: usize = 0;
    while i < polygons.len()
        invariant
            i <= polygons@.len(),
            counts@.len() == i,
            forall|j: int| 0 <= j < polygons@.len() ==> #[trigger] polygons@[j]@.len() <= i32::MAX,
            forall|j: int| 0 <= j < i ==> counts@[j] == #[trigger] polygons@[j]@.len(),
        decreases polygons@.len() - i,
    {
        let n = polygons[i].len();
        counts.push(n as i32);
        i = i + 1;
    }
    counts
}

} // verus!
