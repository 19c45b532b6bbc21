use vstd::prelude::*;
use crate::primitives::RectSeq;

verus! {

/// A loaded native cascade classifier; `raw` is its address.
#[derive(Debug)]
pub struct CascadeClassifier {
    raw: usize,
}

impl CascadeClassifier {
    pub closed spec fn spec_raw(&self) -> usize {
        self.raw
    }

    /// The result of loading the cascade at `path`: the classifier where the
    /// native loader gave a handle, else the path as the error.
    pub fn from_loaded(path: &str, raw: usize) -> (r: Result<CascadeClassifier, String>)
        ensures
            match r {
                Ok(c) => raw != 0 && c.spec_raw() == raw,
                Err(e) => raw == 0 && e@ == path@,
            },
    {
        if raw != 0 {
            Ok(CascadeClassifier { raw: raw })
        } else {
            Err(path.to_string())
        }
    }

    pub fn raw(&self) -> (r: usize)
        ensures
            r == self.spec_raw(),
    {
        self.raw
    }
}

/// The result of a detection whose native result sequence is at `raw`: a
/// cursor at its start, or an error for a null result.
pub fn detection_result(raw: usize) -> (r: Result<RectSeq, String>)
    ensures
        match r {
            Ok(s) => raw != 0 && s.raw == raw && s.curr == 0,
            Err(e) => raw == 0 && e@ == "Something went wrong!"@,
        },
{
    if raw != 0 {
        Ok(RectSeq::new(raw))
    } else {
        proof {
            reveal_strlit("Something went wrong!");
        }
        Err("Something went wrong!".to_string())
    }
}

} // verus!
