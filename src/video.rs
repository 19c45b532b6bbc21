use vstd::prelude::*;
use crate::primitives::Size;
use crate::image::Image;

verus! {

/// The decimal digit `d`, for `d` below ten.
pub open spec fn digit_char(d: nat) -> char {
    if d == 0 { '0' }
    else if d == 1 { '1' }
    else if d == 2 { '2' }
    else if d == 3 { '3' }
    else if d == 4 { '4' }
    else if d == 5 { '5' }
    else if d == 6 { '6' }
    else if d == 7 { '7' }
    else if d == 8 { '8' }
    else { '9' }
}

/// The decimal digits of `n`, most significant first, without leading zeros.
pub open spec fn digits(n: nat) -> Seq<char>
    decreases n,
{
    if n < 10 {
        seq![digit_char(n)]
    } else {
        digits(n / 10).push(digit_char(n % 10))
    }
}

/// `i` written in decimal, with a leading minus sign when negative.
pub open spec fn decimal(i: int) -> Seq<char> {
    if i < 0 {
        seq!['-'] + digits((-i) as nat)
    } else {
        digits(i as nat)
    }
}

/// Relies on `i32`'s `Display` through `ToString::to_string`: the number in
/// decimal, with a minus sign for a negative one.
#[verifier::external_body]
fn decimal_string(i: i32) -> (r: String)
    ensures
        r@ == decimal(i as int),
{
    i.to_string()
}

pub open spec fn camera_error(index: i32) -> Seq<char> {
    "Camera failed to properly initialize! Maybe you're using the wrong camera index ("@
        + decimal(index as int)
        + "). Use `from_camera(0)` to autodetect the camera index."@
}

/// A native capture session on a file or a camera; `raw` is its address. The
/// session is released once, by its owner.
#[derive(Debug)]
pub struct Capture {
    raw: usize,
}

impl Capture {
    pub closed spec fn spec_raw(&self) -> usize {
        self.raw
    }

    /// The result of opening the file at `path`: the capture where the native
    /// call gave a handle, else the path as the error.
    pub fn from_file_opened(path: &str, raw: usize) -> (r: Result<Capture, String>)
        ensures
            match r {
                Ok(c) => raw != 0 && c.spec_raw() == raw,
                Err(e) => raw == 0 && e@ == path@,
            },
    {
        if raw != 0 {
            Ok(Capture { raw: raw })
        } else {
            Err(path.to_string())
        }
    }

    /// The result of opening camera `index`: the capture where the native call
    /// gave a handle, else a message that names the index.
    pub fn from_camera_opened(index: i32, raw: usize) -> (r: Result<Capture, String>)
        ensures
            match r {
                Ok(c) => raw != 0 && c.spec_raw() == raw,
                Err(e) => raw == 0 && e@ == camera_error(index),
            },
    {
        if raw != 0 {
            Ok(Capture { raw: raw })
        } else {
            let mut message = "Camera failed to properly initialize! Maybe you're using the wrong camera index (".to_string();
            let number = decimal_string(index);
            message.append(number.as_str());
            message.append("). ");
            message.append("Use `from_camera(0)` to autodetect the camera index.");
            proof {
                reveal_strlit("). ");
                reveal_strlit("Use `from_camera(0)` to autodetect the camera index.");
                reveal_strlit("). Use `from_camera(0)` to autodetect the camera index.");
                assert(message@ =~= camera_error(index));
            }
            Err(message)
        }
    }

    pub fn raw(&self) -> (r: usize)
        ensures
            r == self.spec_raw(),
    {
        self.raw
    }

    /// The frames of this capture, borrowed from it: they cannot outlive it.
    pub fn frames(&self) -> (f: Frames<'_>)
        ensures
            f.spec_capture() == *self,
    {
        Frames { capture: self }
    }
}

/// The frames of a capture. Each frame handed out is borrowed: the capture
/// owns the native buffer, and a frame is never released through it.
pub struct Frames<'a> {
    capture: &'a Capture,
}

impl<'a> Frames<'a> {
    pub closed spec fn spec_capture(&self) -> Capture {
        *self.capture
    }

    pub fn capture(&self) -> (c: &'a Capture)
        ensures
            *c == self.spec_capture(),
    {
        self.capture
    }

    /// The frame that the native query gave: a borrowed image, or `None` for a
    /// null handle.
    pub fn frame(raw: usize, size: Size) -> (r: Option<Image>)
        ensures
            match r {
                Some(img) => raw != 0 && img.raw == raw && !img.is_owned && img.size == size,
                None => raw == 0,
            },
    {
        Image::borrowed(raw, size)
    }

    /// The index of the frame after the one at `position`.
    pub fn next_index(position: usize) -> (r: usize)
        requires
            position < usize::MAX,
        ensures
            r == position + 1,
    {
        position + 1
    }

    /// The number of frames, from the count the native property reports, which
    /// runs two past the frames that can be read.
    pub fn count_from_reported(reported: usize) -> (r: usize)
        requires
            reported >= 2,
        ensures
            r == reported - 2,
    {
        reported - 2
    }
}

/// The low byte of a character, as the native four-character code takes it.
pub open spec fn code_byte(c: char) -> nat {
    (c as u32 as nat) % 256
}

/// The native four-character code: the bytes of the four characters, the
/// first one lowest, read as one 32-bit integer.
pub open spec fn fourcc(c: Seq<char>) -> i32 {
    (code_byte(c[0]) + 256 * code_byte(c[1]) + 65536 * code_byte(c[2]) + 16777216 * code_byte(c[3])) as u32 as i32
}

/// A native video writer; `raw` is its address. The writer is released once,
/// by its owner.
#[derive(Debug)]
pub struct Writer {
    raw: usize,
}

impl Writer {
    pub closed spec fn spec_raw(&self) -> usize {
        self.raw
    }

    /// The four-character code of a codec, as the native writer takes it.
    pub fn fourcc_code(code: &[char; 4]) -> (r: i32)
        ensures
            r == fourcc(code@),
    {
        let b0: u32 = (code[0] as u32) % 256;
        let b1: u32 = (code[1] as u32) % 256;
        let b2: u32 = (code[2] as u32) % 256;
        let b3: u32 = (code[3] as u32) % 256;
        let v: u32 = b0 + 256 * b1 + 65536 * b2 + 16777216 * b3;
        v as i32
    }

    /// The native flag for colour frames.
    pub fn color_flag(is_color: bool) -> (r: i32)
        ensures
            r == (if is_color { 1i32 } else { 0i32 }),
    {
        if is_color {
            1
        } else {
            0
        }
    }

    /// The result of opening a writer on `path`: the writer where the native
    /// call gave a handle, else the path as the error.
    pub fn from_opened(path: &str, raw: usize) -> (r: Result<Writer, String>)
        ensures
            match r {
                Ok(w) => raw != 0 && w.spec_raw() == raw,
                Err(e) => raw == 0 && e@ == path@,
            },
    {
        if raw != 0 {
            Ok(Writer { raw: raw })
        } else {
            Err(path.to_string())
        }
    }

    pub fn raw(&self) -> (r: usize)
        ensures
            r == self.spec_raw(),
    {
        self.raw
    }
}

} // verus!
