use vstd::prelude::*;

verus! {

/// The host call that a runtime error came from.
#[derive(Clone, Copy, Debug, PartialEq, Eq, Structural)]
pub enum IoFailure {
    /// The host did not make the context current.
    SetCurrentContext,
    /// The host did not present the renderbuffer.
    PresentRenderbuffer,
}

impl IoFailure {
    /// The text that describes the failure.
    pub open spec fn spec_message(self) -> Seq<char> {
        match self {
            IoFailure::SetCurrentContext => "EAGLContext::setCurrentContext unsuccessful"@,
            IoFailure::PresentRenderbuffer => "EAGLContext.presentRenderbuffer unsuccessful"@,
        }
    }

    /// The text that describes the failure.
    pub fn message(&self) -> (r: &'static str)
        ensures
            r@ == self.spec_message(),
    {
        match self {
            IoFailure::SetCurrentContext => "EAGLContext::setCurrentContext unsuccessful",
            IoFailure::PresentRenderbuffer => "EAGLContext.presentRenderbuffer unsuccessful",
        }
    }
}

/// A failed call on a live context; the caller may try again.
#[derive(Clone, Copy, Debug, PartialEq, Eq, Structural)]
pub enum ContextError {
    /// The host refused the call.
    IoError(IoFailure),
}

/// Why no context could be made.
#[derive(Clone, Copy, Debug, PartialEq, Eq, Structural)]
pub enum CreationError {
    /// The window system did not build the window.
    Window,
    /// The host handed back a null rendering context.
    ContextAllocation,
}

/// A condition below this layer that construction cannot go on from. The
/// driver stops the process on it.
#[derive(Clone, Copy, Debug, PartialEq, Eq, Structural)]
pub enum FatalError {
    /// The host runtime refused the view type.
    ViewTypeRegistration,
    /// The context could not take renderbuffer storage from the layer.
    RenderbufferStorage,
    /// The framebuffer is not complete; the status that the host reported.
    FramebufferIncomplete(u32),
}

impl FatalError {
    /// The text that names the condition.
    pub open spec fn spec_message(self) -> Seq<char> {
        match self {
            FatalError::ViewTypeRegistration => "could not register the view type"@,
            FatalError::RenderbufferStorage => "EAGL: could not set renderbufferStorage"@,
            FatalError::FramebufferIncomplete(_) => "framebuffer status"@,
        }
    }

    /// The text that names the condition.
    pub fn message(&self) -> (r: &'static str)
        ensures
            r@ == self.spec_message(),
    {
        match self {
            FatalError::ViewTypeRegistration => "could not register the view type",
            FatalError::RenderbufferStorage => "EAGL: could not set renderbufferStorage",
            FatalError::FramebufferIncomplete(_) => "framebuffer status",
        }
    }

    /// The status that the host reported, where the condition has one.
    pub fn status(&self) -> (r: Option<u32>)
        ensures
            r == match *self {
                FatalError::FramebufferIncomplete(s) => Some(s),
                _ => None,
            },
    {
        match self {
            FatalError::FramebufferIncomplete(s) => Some(*s),
            _ => None,
        }
    }
}

} // verus!
