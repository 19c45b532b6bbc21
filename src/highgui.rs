use vstd::prelude::*;

verus! {

/// A mouse event as the native library numbers it, from 0 upward.
#[derive(Clone, Copy, PartialEq, Eq, Structural, Debug)]
pub enum MouseEvent {
    MouseMove,
    LeftButtonDown,
    RightButtonDown,
    MiddleButtonDown,
    LeftButtonUp,
    RightButtonUp,
    MiddleButtonUp,
    LeftButtonDoubleClick,
    RightButtonDoubleClick,
    MiddleButtonDoubleClick,
    MouseWheel,
    MouseHorizontalWheel,
}

impl MouseEvent {
    /// The native code of the event.
    pub open spec fn spec_code(self) -> int {
        match self {
            MouseEvent::MouseMove => 0,
            MouseEvent::LeftButtonDown => 1,
            MouseEvent::RightButtonDown => 2,
            MouseEvent::MiddleButtonDown => 3,
            MouseEvent::LeftButtonUp => 4,
            MouseEvent::RightButtonUp => 5,
            MouseEvent::MiddleButtonUp => 6,
            MouseEvent::LeftButtonDoubleClick => 7,
            MouseEvent::RightButtonDoubleClick => 8,
            MouseEvent::MiddleButtonDoubleClick => 9,
            MouseEvent::MouseWheel => 10,
            MouseEvent::MouseHorizontalWheel => 11,
        }
    }

    pub fn code(&self) -> (r: i32)
        ensures
            r == self.spec_code(),
    {
        match self {
            MouseEvent::MouseMove => 0,
            MouseEvent::LeftButtonDown => 1,
            MouseEvent::RightButtonDown => 2,
            MouseEvent::MiddleButtonDown => 3,
            MouseEvent::LeftButtonUp => 4,
            MouseEvent::RightButtonUp => 5,
            MouseEvent::MiddleButtonUp => 6,
            MouseEvent::LeftButtonDoubleClick => 7,
            MouseEvent::RightButtonDoubleClick => 8,
            MouseEvent::MiddleButtonDoubleClick => 9,
            MouseEvent::MouseWheel => 10,
            MouseEvent::MouseHorizontalWheel => 11,
        }
    }

    /// The event with the given native code; `None` for a code the library does not know.
    pub fn from_i32(code: i32) -> (r: Option<MouseEvent>)
        ensures
            r.is_some() <==> 0 <= code <= 11,
            r matches Some(e) ==> e.spec_code() == code,
    {
        match code {
            0 => Some(MouseEvent::MouseMove),
            1 => Some(MouseEvent::LeftButtonDown),
            2 => Some(MouseEvent::RightButtonDown),
            3 => Some(MouseEvent::MiddleButtonDown),
            4 => Some(MouseEvent::LeftButtonUp),
            5 => Some(MouseEvent::RightButtonUp),
            6 => Some(MouseEvent::MiddleButtonUp),
            7 => Some(MouseEvent::LeftButtonDoubleClick),
            8 => Some(MouseEvent::RightButtonDoubleClick),
            9 => Some(MouseEvent::MiddleButtonDoubleClick),
            10 => Some(MouseEvent::MouseWheel),
            11 => Some(MouseEvent::MouseHorizontalWheel),
            _ => None,
        }
    }
}

/// Every code maps back to itself, and every event to its own code.
pub proof fn lemma_mouse_code_round_trip(e: MouseEvent)
    ensures
        0 <= e.spec_code() <= 11,
        forall|f: MouseEvent| f.spec_code() == e.spec_code() ==> f == e,
{
}

/// A slider of a named window. The window keeps the registered callback; a
/// trackbar handed out to a caller names the slider and owns no callback.
pub struct Trackbar<F> {
    name: String,
    window: String,
    on_change: Option<Box<F>>,
}

impl<F> Trackbar<F> {
    pub closed spec fn spec_name(&self) -> Seq<char> {
        self.name@
    }

    pub closed spec fn spec_window(&self) -> Seq<char> {
        self.window@
    }

    pub closed spec fn spec_callback(&self) -> Option<F> {
        match self.on_change {
            Some(b) => Some(*b),
            None => None,
        }
    }

    pub fn name(&self) -> (r: &str)
        ensures
            r@ == self.spec_name(),
    {
        self.name.as_str()
    }

    pub fn window(&self) -> (r: &str)
        ensures
            r@ == self.spec_window(),
    {
        self.window.as_str()
    }

    pub fn has_callback(&self) -> (r: bool)
        ensures
            r == self.spec_callback().is_some(),
    {
        self.on_change.is_some()
    }

    /// A copy that names the same slider and carries no callback.
    pub fn detached(&self) -> (r: Trackbar<F>)
        ensures
            r.spec_name() == self.spec_name(),
            r.spec_window() == self.spec_window(),
            r.spec_callback().is_none(),
    {
        Trackbar { name: self.name.clone(), window: self.window.clone(), on_change: None }
    }
}

impl<F> Clone for Trackbar<F> {
    fn clone(&self) -> (r: Trackbar<F>)
        ensures
            r.spec_name() == self.spec_name(),
            r.spec_window() == self.spec_window(),
            r.spec_callback().is_none(),
    {
        self.detached()
    }
}

/// A named window and the callbacks registered on it. Each callback sits in a
/// box of its own, so its address stays fixed while the window lives, whatever
/// becomes of the window value or of the list of trackbars.
pub struct Window<F, M> {
    name: String,
    trackbars: Vec<Trackbar<F>>,
    on_mouse: Option<Box<M>>,
}

impl<F, M> Window<F, M> {
    pub closed spec fn spec_name(&self) -> Seq<char> {
        self.name@
    }

    pub closed spec fn spec_trackbars(&self) -> Seq<Trackbar<F>> {
        self.trackbars@
    }

    pub closed spec fn spec_mouse_callback(&self) -> Option<M> {
        match self.on_mouse {
            Some(b) => Some(*b),
            None => None,
        }
    }

    /// Every trackbar the window holds belongs to it and keeps its callback.
    pub open spec fn wf(&self) -> bool {
        forall|i: int|
            0 <= i < self.spec_trackbars().len() ==> {
                &&& (#[trigger] self.spec_trackbars()[i]).spec_window() == self.spec_name()
                &&& self.spec_trackbars()[i].spec_callback().is_some()
            }
    }

    /// The library side of a new window: no trackbars and no mouse callback yet.
    pub fn new(name: &str) -> (w: Window<F, M>)
        ensures
            w.wf(),
            w.spec_name() == name@,
            w.spec_trackbars().len() == 0,
            w.spec_mouse_callback().is_none(),
    {
        Window { name: name.to_string(), trackbars: Vec::new(), on_mouse: None }
    }

    pub fn name(&self) -> (r: &str)
        ensures
            r@ == self.spec_name(),
    {
        self.name.as_str()
    }

    pub fn trackbar_count(&self) -> (r: usize)
        ensures
            r == self.spec_trackbars().len(),
    {
        self.trackbars.len()
    }

    /// Keeps a new trackbar with its callback in the window, and hands out a
    /// copy of it that owns no callback.
    pub fn register_trackbar(&mut self, name: &str, on_change: F) -> (r: Trackbar<F>)
        requires
            old(self).wf(),
        ensures
            final(self).wf(),
            final(self).spec_name() == old(self).spec_name(),
            final(self).spec_mouse_callback() == old(self).spec_mouse_callback(),
            final(self).spec_trackbars().len() == old(self).spec_trackbars().len() + 1,
            final(self).spec_trackbars().drop_last() == old(self).spec_trackbars(),
            final(self).spec_trackbars().last().spec_name() == name@,
            final(self).spec_trackbars().last().spec_window() == old(self).spec_name(),
            final(self).spec_trackbars().last().spec_callback() == Some(on_change),
            r.spec_name() == name@,
            r.spec_window() == old(self).spec_name(),
            r.spec_callback().is_none(),
    {
        let trackbar = Trackbar {
            name: name.to_string(),
            window: self.name.clone(),
            on_change: Some(Box::new(on_change)),
        };
        let handed_out = trackbar.detached();
        self.trackbars.push(trackbar);
        proof {
            assert(self.trackbars@.drop_last() =~= old(self).trackbars@);
        }
        handed_out
    }

    /// The callback kept for the trackbar at `index`.
    pub fn trackbar_callback(&self, index: usize) -> (r: &F)
        requires
            self.wf(),
            index < self.spec_trackbars().len(),
        ensures
            self.spec_trackbars()[index as int].spec_callback() == Some(*r),
    {
        let trackbar = &self.trackbars[index];
        proof {
            assert(self.spec_trackbars()[index as int].spec_callback().is_some());
        }
        &**trackbar.on_change.as_ref().unwrap()
    }

    /// Keeps `on_mouse` as the window's mouse callback, in place of any earlier one.
    pub fn set_mouse_callback(&mut self, on_mouse: M)
        requires
            old(self).wf(),
        ensures
            final(self).wf(),
            final(self).spec_name() == old(self).spec_name(),
            final(self).spec_trackbars() == old(self).spec_trackbars(),
            final(self).spec_mouse_callback() == Some(on_mouse),
    {
        self.on_mouse = Some(Box::new(on_mouse));
    }

    pub fn mouse_callback(&self) -> (r: Option<&M>)
        ensures
            match r {
                Some(m) => self.spec_mouse_callback() == Some(*m),
                None => self.spec_mouse_callback().is_none(),
            },
    {
        match &self.on_mouse {
            Some(b) => Some(&**b),
            None => None,
        }
    }
}

} // verus!
