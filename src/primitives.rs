use vstd::prelude::*;

verus! {

/// A colour with 8-bit red, green, blue and alpha channels.
#[derive(Clone, Copy, PartialEq, Eq, Structural, Debug)]
pub struct Color {
    red: u8,
    green: u8,
    blue: u8,
    alpha: u8,
}

impl Color {
    pub closed spec fn spec_red(&self) -> u8 { self.red }
    pub closed spec fn spec_green(&self) -> u8 { self.green }
    pub closed spec fn spec_blue(&self) -> u8 { self.blue }
    pub closed spec fn spec_alpha(&self) -> u8 { self.alpha }

    /// An opaque colour: alpha is zero, as the native library reads it.
    pub fn from_rgb(red: u8, green: u8, blue: u8) -> (c: Color)
        ensures
            c.spec_red() == red,
            c.spec_green() == green,
            c.spec_blue() == blue,
            c.spec_alpha() == 0,
    {
        Color { red: red, green: green, blue: blue, alpha: 0 }
    }

    pub fn from_rgba(red: u8, green: u8, blue: u8, alpha: u8) -> (c: Color)
        ensures
            c.spec_red() == red,
            c.spec_green() == green,
            c.spec_blue() == blue,
            c.spec_alpha() == alpha,
    {
        Color { red: red, green: green, blue: blue, alpha: alpha }
    }

    /// The channels in the order the native scalar holds them: blue, green, red, alpha.
    pub fn channels(&self) -> (r: [u8; 4])
        ensures
            r@ == seq![self.spec_blue(), self.spec_green(), self.spec_red(), self.spec_alpha()],
    {
        [self.blue, self.green, self.red, self.alpha]
    }
}

#[derive(Clone, Copy, PartialEq, Eq, Structural, Debug)]
pub struct Point {
    pub x: i32,
    pub y: i32,
}

impl Point {
    pub fn new(x: i32, y: i32) -> (p: Point)
        ensures
            p.x == x,
            p.y == y,
    {
        Point { x: x, y: y }
    }
}

#[derive(Clone, Copy, PartialEq, Eq, Structural, Debug)]
pub struct Rect {
    pub x: i32,
    pub y: i32,
    pub width: i32,
    pub height: i32,
}

impl Rect {
    pub fn new(x: i32, y: i32, width: i32, height: i32) -> (r: Rect)
        ensures
            r.x == x,
            r.y == y,
            r.width == width,
            r.height == height,
    {
        Rect { x: x, y: y, width: width, height: height }
    }
}

#[derive(Clone, Copy, PartialEq, Eq, Structural, Debug)]
pub struct Size {
    pub width: i32,
    pub height: i32,
}

impl Size {
    pub fn new(width: i32, height: i32) -> (s: Size)
        ensures
            s.width == width,
            s.height == height,
    {
        Size { width: width, height: height }
    }
}

/// The number of elements of a native result sequence whose header reports
/// `total`: a negative count reads as none.
pub open spec fn seq_len(total: i32) -> nat {
    if total > 0 {
        total as nat
    } else {
        0
    }
}

/// A cursor over a native sequence of rectangles, such as the result of a
/// detection. `raw` is the address of the native sequence; `curr` is the index
/// of the next element to hand out.
#[derive(Debug)]
pub struct RectSeq {
    pub raw: usize,
    pub curr: usize,
}

impl RectSeq {
    /// A cursor at the start of the sequence at `raw`.
    pub fn new(raw: usize) -> (s: RectSeq)
        ensures
            s.raw == raw,
            s.curr == 0,
    {
        RectSeq { raw: raw, curr: 0 }
    }

    /// The number of elements, given the count that the native header reports.
    pub fn len_of(total: i32) -> (r: usize)
        ensures
            r == seq_len(total),
    {
        if total > 0 {
            total as usize
        } else {
            0
        }
    }

    /// The index of the element to fetch next, or `None` once the cursor has
    /// passed the last one.
    pub fn pending_index(&self, total: i32) -> (r: Option<usize>)
        ensures
            r == (if self.curr < seq_len(total) {
                Some(self.curr)
            } else {
                None::<usize>
            }),
    {
        if self.curr < RectSeq::len_of(total) {
            Some(self.curr)
        } else {
            None
        }
    }

    /// One step of the iteration: `fetched` is the element found at the
    /// pending index (`None` where the native lookup gave nothing). The cursor
    /// moves on only past an element that was handed out.
    pub fn accept(&mut self, total: i32, fetched: Option<Rect>) -> (r: Option<Rect>)
        ensures
            final(self).raw == old(self).raw,
            old(self).curr < seq_len(total) ==> r == fetched,
            old(self).curr >= seq_len(total) ==> r.is_none(),
            final(self).curr == (if r.is_some() {
                old(self).curr + 1
            } else {
                old(self).curr as int
            }),
            old(self).curr <= seq_len(total) ==> final(self).curr <= seq_len(total),
    {
        if self.curr < RectSeq::len_of(total) {
            match fetched {
                Some(rect) => {
                    self.curr = self.curr + 1;
                    Some(rect)
                },
                None => None,
            }
        } else {
            None
        }
    }
}

} // verus!
