use vstd::prelude::*;
use crate::context::{window_answered, Context};
use crate::error::{CreationError, FatalError};
use crate::framebuffer::{
    build_framebuffer, calls_made, completes, failure_of, FramebufferIds, FramebufferReplies, GlCall,
};
use crate::host::{spec_is_null, Handle};
use crate::registrar::{action_for, registration_answered, RegistrarAction, ViewTypeRegistrar};
use crate::surface::{
    bind_surface, binding_calls, locate_queries, queries_of, BindStrategy, HostQuery, HostWindow,
    ScreenGeometry, ViewCall, WindowAttributes,
};

verus! {

/// Why a construction gave no surface.
#[derive(Clone, Copy, Debug, PartialEq, Eq, Structural)]
pub enum ConstructionError {
    /// An error that goes back to the caller.
    Creation(CreationError),
    /// A condition that the driver stops the process on.
    Fatal(FatalError),
}

/// The answers of a host to one whole construction, in the order in which
/// they are asked for.
#[derive(Clone, Copy, Debug, PartialEq, Eq, Structural)]
pub struct HostReplies {
    /// Whether the window system built the window.
    pub window_built: bool,
    /// Whether the runtime took the view type, where it was asked to.
    pub registration_accepted: bool,
    /// The rendering context that the host made; null where it made none.
    pub eagl_context: Handle,
    /// The window and the controller that the strategy found.
    pub host: HostWindow,
    /// The screen as the strategy found it.
    pub geometry: ScreenGeometry,
    /// The view that was made to the screen's bounds.
    pub view: Handle,
    /// The layer of that view.
    pub layer: Handle,
    /// The answers to the calls that build the framebuffer.
    pub framebuffer: FramebufferReplies,
}

/// A surface that is ready to draw into.
#[derive(Debug)]
pub struct Surface {
    pub context: Context,
    pub framebuffer: FramebufferIds,
    /// The scale that the surface was built at, in thousandths.
    pub scale_milli: u32,
}

/// What was asked of the host during a construction, part by part. A part
/// that construction did not get to is empty.
#[derive(Debug)]
pub struct ConstructionTrace {
    /// What became of the request for the view type.
    pub registration: Option<RegistrarAction>,
    pub queries: Vec<HostQuery>,
    pub view_calls: Vec<ViewCall>,
    pub gl_calls: Vec<GlCall>,
}

/// Whether construction gets as far as a rendering context: there is a
/// window, the view type is defined, and the host made a context.
pub open spec fn reaches_surface(registered: bool, replies: HostReplies) -> bool {
    replies.window_built && (registered || replies.registration_accepted) && !spec_is_null(
        replies.eagl_context,
    )
}

/// Whether these answers let construction finish.
pub open spec fn succeeds(registered: bool, replies: HostReplies) -> bool {
    reaches_surface(registered, replies) && completes(replies.framebuffer)
}

/// What stops a construction that does not finish. The parts are checked
/// in the order in which they run: window, view type, rendering context,
/// framebuffer.
pub open spec fn failure(registered: bool, replies: HostReplies) -> ConstructionError {
    if !replies.window_built {
        ConstructionError::Creation(CreationError::Window)
    } else if !registered && !replies.registration_accepted {
        ConstructionError::Fatal(FatalError::ViewTypeRegistration)
    } else if spec_is_null(replies.eagl_context) {
        ConstructionError::Creation(CreationError::ContextAllocation)
    } else {
        ConstructionError::Fatal(failure_of(replies.framebuffer))
    }
}

/// Runs one whole construction against the answers of a host: the window,
/// the view type, the rendering context, the view in the host's hierarchy,
/// and the framebuffer on the view's layer. Gives the surface or what
/// stopped construction, with everything that was asked of the host.
pub fn construct(
    registrar: &mut ViewTypeRegistrar,
    attrs: &WindowAttributes,
    strategy: BindStrategy,
    replies: &HostReplies,
) -> (r: (Result<Surface, ConstructionError>, ConstructionTrace))
    ensures
        final(registrar).is_registered() == (old(registrar).is_registered() || replies.window_built),
        succeeds(old(registrar).is_registered(), *replies) ==> r.0.is_ok() && {
            let s = r.0.unwrap();
            &&& s.context.spec_context() == replies.eagl_context
            &&& s.context.spec_view() == replies.view
            &&& s.framebuffer.spec_renderbuffer() == replies.framebuffer.renderbuffer
            &&& s.framebuffer.spec_framebuffer() == replies.framebuffer.framebuffer
            &&& s.scale_milli == replies.geometry.scale_milli
        },
        !succeeds(old(registrar).is_registered(), *replies) ==> r.0.is_err() && r.0.unwrap_err()
            == failure(old(registrar).is_registered(), *replies),
        r.1.registration == if replies.window_built {
            Some(action_for(old(registrar).is_registered()))
        } else {
            None
        },
        reaches_surface(old(registrar).is_registered(), *replies) ==> {
            &&& r.1.queries@ == queries_of(strategy)
            &&& r.1.view_calls@ == binding_calls(*attrs, replies.geometry, replies.host, replies.view)
            &&& r.1.gl_calls@ == calls_made(replies.eagl_context, replies.layer, replies.framebuffer)
        },
        !reaches_surface(old(registrar).is_registered(), *replies) ==> {
            &&& r.1.queries@.len() == 0
            &&& r.1.view_calls@.len() == 0
            &&& r.1.gl_calls@.len() == 0
        },
{
    let mut trace = ConstructionTrace {
        registration: None,
        queries: Vec::new(),
        view_calls: Vec::new(),
        gl_calls: Vec::new(),
    };
    if let Err(e) = window_answered(replies.window_built) {
        return (Err(ConstructionError::Creation(e)), trace);
    }
    let action = registrar.ensure_registered();
    trace.registration = Some(action);
    if let RegistrarAction::Declare = action {
        if let Err(e) = registration_answered(replies.registration_accepted) {
            return (Err(ConstructionError::Fatal(e)), trace);
        }
    }
    let context = match Context::new(replies.eagl_context, replies.view) {
        Ok(context) => context,
        Err(e) => {
            return (Err(ConstructionError::Creation(e)), trace);
        },
    };
    trace.queries = locate_queries(strategy);
    let (view_calls, scale_milli) = bind_surface(attrs, &replies.geometry, &replies.host, replies.view);
    trace.view_calls = view_calls;
    let (built, gl_calls) = build_framebuffer(replies.eagl_context, replies.layer, &replies.framebuffer);
    trace.gl_calls = gl_calls;
    match built {
        Ok(framebuffer) => (Ok(Surface { context, framebuffer, scale_milli }), trace),
        Err(e) => (Err(ConstructionError::Fatal(e)), trace),
    }
}

} // verus!
