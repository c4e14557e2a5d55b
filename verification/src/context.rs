use vstd::prelude::*;
use crate::error::{ContextError, CreationError, IoFailure};
use crate::framebuffer::RENDERBUFFER;
use crate::host::{is_null, spec_is_null, Handle};
use crate::lifecycle::LifecycleEventMapper;
use crate::symbols::{check_symbol_name, is_symbol_name, LibraryCache, SymbolQuery};

verus! {

/// The families of rendering interface.
#[derive(Clone, Copy, Debug, PartialEq, Eq, Structural)]
pub enum Api {
    OpenGl,
    OpenGlEs,
    WebGl,
}

/// The version of the rendering interface that contexts are made for.
pub const RENDERING_API_VERSION: u32 = 2;

/// The context that is current on the thread, as the host last said.
#[derive(Clone, Copy, Debug, PartialEq, Eq, Structural)]
pub struct CurrentContext {
    handle: Handle,
}

impl CurrentContext {
    /// The handle of the current context; null where none is current.
    pub closed spec fn spec_handle(&self) -> Handle {
        self.handle
    }

    /// What the host reports as current.
    pub fn observed(handle: Handle) -> (c: Self)
        ensures
            c.spec_handle() == handle,
    {
        CurrentContext { handle }
    }

    /// The handle of the current context; null where none is current.
    pub fn handle(&self) -> (h: Handle)
        ensures
            h == self.spec_handle(),
    {
        self.handle
    }
}

/// Takes the window system's answer to the request for a window. Without
/// a window nothing else is made.
pub fn window_answered(built: bool) -> (r: Result<(), CreationError>)
    ensures
        built ==> r == Ok::<(), CreationError>(()),
        !built ==> r == Err::<(), CreationError>(CreationError::Window),
{
    if built {
        Ok(())
    } else {
        Err(CreationError::Window)
    }
}

/// One call on the host that a context asks its driver to make.
#[derive(Clone, Copy, Debug, PartialEq, Eq, Structural)]
pub enum ContextCall {
    SetCurrentContext { context: Handle },
    PresentRenderbuffer { context: Handle, target: u32 },
}

/// A rendering context and the view that it draws into. The context is the
/// handle's only owner; the view belongs to the host's hierarchy and is
/// only addressed from here.
#[derive(Debug)]
pub struct Context {
    eagl_context: Handle,
    view: Handle,
}

impl Context {
    /// The handle of the rendering context.
    pub closed spec fn spec_context(&self) -> Handle {
        self.eagl_context
    }

    /// The handle of the view.
    pub closed spec fn spec_view(&self) -> Handle {
        self.view
    }

    /// Whether this context is the one that is current.
    pub open spec fn spec_is_current(&self, current: CurrentContext) -> bool {
        current.spec_handle() == self.spec_context()
    }

    /// The version to ask the host for when a rendering context is made.
    pub fn create_context() -> (version: u32)
        ensures
            version == RENDERING_API_VERSION,
    {
        RENDERING_API_VERSION
    }

    /// Makes the context from the handles that the host gave. A null
    /// rendering context means that the host made none.
    pub fn new(eagl_context: Handle, view: Handle) -> (r: Result<Context, CreationError>)
        ensures
            !spec_is_null(eagl_context) ==> r.is_ok() && r.unwrap().spec_context() == eagl_context
                && r.unwrap().spec_view() == view,
            spec_is_null(eagl_context) ==> r.is_err() && r.unwrap_err()
                == CreationError::ContextAllocation,
    {
        if is_null(eagl_context) {
            Err(CreationError::ContextAllocation)
        } else {
            Ok(Context { eagl_context, view })
        }
    }

    /// The handle of the rendering context.
    pub fn context_handle(&self) -> (h: Handle)
        ensures
            h == self.spec_context(),
    {
        self.eagl_context
    }

    /// The handle of the view.
    pub fn view_handle(&self) -> (h: Handle)
        ensures
            h == self.spec_view(),
    {
        self.view
    }

    /// The call that makes this context current.
    pub fn make_current_call(&self) -> (c: ContextCall)
        ensures
            c == (ContextCall::SetCurrentContext { context: self.spec_context() }),
    {
        ContextCall::SetCurrentContext { context: self.eagl_context }
    }

    /// The call that presents what was drawn.
    pub fn swap_buffers_call(&self) -> (c: ContextCall)
        ensures
            c == (ContextCall::PresentRenderbuffer {
                context: self.spec_context(),
                target: RENDERBUFFER,
            }),
    {
        ContextCall::PresentRenderbuffer { context: self.eagl_context, target: RENDERBUFFER }
    }

    /// Takes the host's answer to the call that makes this context current.
    /// Where the host accepted, this context is the current one from now on;
    /// where it refused, the current one is as before. No call may be made
    /// once `Closed` has gone out.
    pub fn make_current(
        &self,
        lifecycle: &LifecycleEventMapper,
        current: &mut CurrentContext,
        accepted: bool,
    ) -> (r: Result<(), ContextError>)
        requires
            !lifecycle.is_closed(),
        ensures
            accepted ==> r == Ok::<(), ContextError>(()) && self.spec_is_current(*final(current)),
            self.spec_is_current(*old(current)) ==> *final(current) == *old(current),
            !accepted ==> r == Err::<(), ContextError>(
                ContextError::IoError(IoFailure::SetCurrentContext),
            ) && *final(current) == *old(current),
    {
        if accepted {
            current.handle = self.eagl_context;
            Ok(())
        } else {
            Err(ContextError::IoError(IoFailure::SetCurrentContext))
        }
    }

    /// Takes the host's answer to the call that presents what was drawn.
    /// No call may be made once `Closed` has gone out.
    pub fn swap_buffers(&self, lifecycle: &LifecycleEventMapper, presented: bool) -> (r: Result<
        (),
        ContextError,
    >)
        requires
            !lifecycle.is_closed(),
        ensures
            presented ==> r == Ok::<(), ContextError>(()),
            !presented ==> r == Err::<(), ContextError>(
                ContextError::IoError(IoFailure::PresentRenderbuffer),
            ),
    {
        if presented {
            Ok(())
        } else {
            Err(ContextError::IoError(IoFailure::PresentRenderbuffer))
        }
    }

    /// Whether this context is the one that the host reports as current:
    /// the two handles are the same.
    pub fn is_current(&self, current: &CurrentContext) -> (r: bool)
        ensures
            r == self.spec_is_current(*current),
    {
        current.handle == self.eagl_context
    }

    /// The lookup that resolves a GL function by name, if there is one to
    /// make: the name can be a symbol's and the library is open. Where
    /// there is none the function's address is null.
    pub fn get_proc_address<'a>(&self, addr: &'a str, library: &LibraryCache) -> (q: Option<
        SymbolQuery<'a>,
    >)
        ensures
            q.is_some() == (is_symbol_name(addr@) && !spec_is_null(library.spec_handle())),
            q.is_some() ==> q.unwrap().library == library.spec_handle() && q.unwrap().name@
                == addr@,
    {
        let handle = library.handle();
        if !is_null(handle) && check_symbol_name(addr) {
            Some(SymbolQuery { library: handle, name: addr })
        } else {
            None
        }
    }

    /// The interface that the context speaks, which is the same for all.
    pub fn get_api(&self) -> (api: Api)
        ensures
            api == Api::OpenGlEs,
    {
        Api::OpenGlEs
    }

    /// Takes a new size for the surface, and does nothing with it: on this
    /// platform the display does not change size while the program runs.
    /// Gives the calls to make on the host, of which there are none.
    pub fn resize(&self, width: u32, height: u32) -> (calls: Vec<ContextCall>)
        ensures
            calls@ == Seq::<ContextCall>::empty(),
    {
        Vec::new()
    }
}

/// Of two contexts with different handles at most one is current: where
/// one is, the other is not.
pub proof fn lemma_current_is_exclusive(a: Context, b: Context, current: CurrentContext)
    requires
        a.spec_context() != b.spec_context(),
        a.spec_is_current(current),
    ensures
        !b.spec_is_current(current),
{
}

} // verus!
