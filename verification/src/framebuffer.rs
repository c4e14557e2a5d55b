use vstd::prelude::*;
use crate::error::FatalError;
use crate::host::Handle;

verus! {

/// The renderbuffer binding target.
pub const RENDERBUFFER: u32 = 0x8D41;

/// The framebuffer binding target.
pub const FRAMEBUFFER: u32 = 0x8D40;

/// The first colour attachment point of a framebuffer.
pub const COLOR_ATTACHMENT0: u32 = 0x8CE0;

/// The status of a framebuffer that can be drawn into.
pub const FRAMEBUFFER_COMPLETE: u32 = 0x8CD5;

/// The pixel layouts that a drawable layer can be given.
#[derive(Clone, Copy, Debug, PartialEq, Eq, Structural)]
pub enum ColorFormat {
    /// 16 bits a pixel: 5 red, 6 green, 5 blue.
    Rgb565,
    /// 32 bits a pixel.
    Rgba8,
}

/// What the layer is told about its backing store.
#[derive(Clone, Copy, Debug, PartialEq, Eq, Structural)]
pub struct DrawableProperties {
    pub retained_backing: bool,
    pub color_format: ColorFormat,
}

/// The properties that every surface gets: nothing retained after a
/// present, and the 16-bit layout.
pub open spec fn spec_drawable_properties() -> DrawableProperties {
    DrawableProperties { retained_backing: false, color_format: ColorFormat::Rgb565 }
}

/// The properties that every surface gets.
pub fn drawable_properties() -> (p: DrawableProperties)
    ensures
        p == spec_drawable_properties(),
{
    DrawableProperties { retained_backing: false, color_format: ColorFormat::Rgb565 }
}

/// One call that the driver makes on the host for the builder.
#[derive(Clone, Copy, Debug, PartialEq, Eq, Structural)]
pub enum GlCall {
    MakeCurrent { context: Handle },
    SetDrawableProperties { layer: Handle, properties: DrawableProperties },
    GenRenderbuffer,
    BindRenderbuffer { target: u32, renderbuffer: u32 },
    RenderbufferStorageFromDrawable { context: Handle, target: u32, layer: Handle },
    GenFramebuffer,
    BindFramebuffer { target: u32, framebuffer: u32 },
    FramebufferRenderbuffer { target: u32, attachment: u32, renderbuffer_target: u32, renderbuffer: u32 },
    CheckFramebufferStatus { target: u32 },
}

/// The calls that open construction, up to the one that answers with the
/// renderbuffer's id.
pub open spec fn opening_calls(context: Handle, layer: Handle) -> Seq<GlCall> {
    seq![
        GlCall::MakeCurrent { context },
        GlCall::SetDrawableProperties { layer, properties: spec_drawable_properties() },
        GlCall::GenRenderbuffer,
    ]
}

/// The calls that bind the renderbuffer and ask for its storage.
pub open spec fn storage_calls(context: Handle, layer: Handle, renderbuffer: u32) -> Seq<GlCall> {
    seq![
        GlCall::BindRenderbuffer { target: RENDERBUFFER, renderbuffer },
        GlCall::RenderbufferStorageFromDrawable { context, target: RENDERBUFFER, layer },
    ]
}

/// The call that follows granted storage.
pub open spec fn framebuffer_calls() -> Seq<GlCall> {
    seq![GlCall::GenFramebuffer]
}

/// The calls that bind the framebuffer, attach the renderbuffer as its
/// colour target and ask for its status.
pub open spec fn attachment_calls(renderbuffer: u32, framebuffer: u32) -> Seq<GlCall> {
    seq![
        GlCall::BindFramebuffer { target: FRAMEBUFFER, framebuffer },
        GlCall::FramebufferRenderbuffer {
            target: FRAMEBUFFER,
            attachment: COLOR_ATTACHMENT0,
            renderbuffer_target: RENDERBUFFER,
            renderbuffer,
        },
        GlCall::CheckFramebufferStatus { target: FRAMEBUFFER },
    ]
}

/// The ids of a renderbuffer and a framebuffer whose completeness the host
/// has confirmed. Only a finished construction gives one.
#[derive(Clone, Copy, Debug, PartialEq, Eq, Structural)]
pub struct FramebufferIds {
    renderbuffer: u32,
    framebuffer: u32,
}

impl FramebufferIds {
    /// The id of the renderbuffer that backs the layer.
    pub closed spec fn spec_renderbuffer(&self) -> u32 {
        self.renderbuffer
    }

    /// The id of the framebuffer that the renderbuffer is attached to.
    pub closed spec fn spec_framebuffer(&self) -> u32 {
        self.framebuffer
    }

    /// The id of the renderbuffer that backs the layer.
    pub fn renderbuffer(&self) -> (r: u32)
        ensures
            r == self.spec_renderbuffer(),
    {
        self.renderbuffer
    }

    /// The id of the framebuffer that the renderbuffer is attached to.
    pub fn framebuffer(&self) -> (r: u32)
        ensures
            r == self.spec_framebuffer(),
    {
        self.framebuffer
    }
}

/// Construction that waits for the id of the generated renderbuffer.
pub struct FramebufferBuilder {
    context: Handle,
    layer: Handle,
}

/// Construction that waits to hear whether the layer gave storage.
pub struct StoragePending {
    context: Handle,
    layer: Handle,
    renderbuffer: u32,
}

/// Construction that waits for the id of the generated framebuffer.
pub struct FramebufferPending {
    renderbuffer: u32,
}

/// Construction that waits for the framebuffer's status.
pub struct StatusPending {
    renderbuffer: u32,
    framebuffer: u32,
}

impl FramebufferBuilder {
    /// The rendering context that construction runs on.
    pub closed spec fn context(&self) -> Handle {
        self.context
    }

    /// The layer that gives the storage.
    pub closed spec fn layer(&self) -> Handle {
        self.layer
    }

    /// Opens construction for a context and the layer of its view.
    pub fn begin(context: Handle, layer: Handle) -> (r: (FramebufferBuilder, Vec<GlCall>))
        ensures
            r.0.context() == context,
            r.0.layer() == layer,
            r.1@ == opening_calls(context, layer),
    {
        let mut calls: Vec<GlCall> = Vec::new();
        calls.push(GlCall::MakeCurrent { context });
        calls.push(GlCall::SetDrawableProperties { layer, properties: drawable_properties() });
        calls.push(GlCall::GenRenderbuffer);
        proof {
            assert(calls@ =~= opening_calls(context, layer));
        }
        (FramebufferBuilder { context, layer }, calls)
    }

    /// Takes the id of the generated renderbuffer.
    pub fn renderbuffer_generated(self, renderbuffer: u32) -> (r: (StoragePending, Vec<GlCall>))
        ensures
            r.0.context() == self.context(),
            r.0.layer() == self.layer(),
            r.0.renderbuffer() == renderbuffer,
            r.1@ == storage_calls(self.context(), self.layer(), renderbuffer),
    {
        let mut calls: Vec<GlCall> = Vec::new();
        calls.push(GlCall::BindRenderbuffer { target: RENDERBUFFER, renderbuffer });
        calls.push(
            GlCall::RenderbufferStorageFromDrawable {
                context: self.context,
                target: RENDERBUFFER,
                layer: self.layer,
            },
        );
        proof {
            assert(calls@ =~= storage_calls(self.context, self.layer, renderbuffer));
        }
        (StoragePending { context: self.context, layer: self.layer, renderbuffer }, calls)
    }
}

impl StoragePending {
    /// The rendering context that construction runs on.
    pub closed spec fn context(&self) -> Handle {
        self.context
    }

    /// The layer that gives the storage.
    pub closed spec fn layer(&self) -> Handle {
        self.layer
    }

    /// The id of the renderbuffer that was generated.
    pub closed spec fn renderbuffer(&self) -> u32 {
        self.renderbuffer
    }

    /// Takes the host's answer to the request for storage. A refusal ends
    /// construction: it is a condition of the device, and asking again
    /// would not change it.
    pub fn storage_allocated(self, granted: bool) -> (r: Result<(FramebufferPending, Vec<GlCall>), FatalError>)
        ensures
            granted ==> r.is_ok() && r.unwrap().0.renderbuffer() == self.renderbuffer()
                && r.unwrap().1@ == framebuffer_calls(),
            !granted ==> r == Err::<(FramebufferPending, Vec<GlCall>), FatalError>(
                FatalError::RenderbufferStorage,
            ),
    {
        if granted {
            let mut calls: Vec<GlCall> = Vec::new();
            calls.push(GlCall::GenFramebuffer);
            proof {
                assert(calls@ =~= framebuffer_calls());
            }
            Ok((FramebufferPending { renderbuffer: self.renderbuffer }, calls))
        } else {
            Err(FatalError::RenderbufferStorage)
        }
    }
}

impl FramebufferPending {
    /// The id of the renderbuffer that was generated.
    pub closed spec fn renderbuffer(&self) -> u32 {
        self.renderbuffer
    }

    /// Takes the id of the generated framebuffer.
    pub fn framebuffer_generated(self, framebuffer: u32) -> (r: (StatusPending, Vec<GlCall>))
        ensures
            r.0.renderbuffer() == self.renderbuffer(),
            r.0.framebuffer() == framebuffer,
            r.1@ == attachment_calls(self.renderbuffer(), framebuffer),
    {
        let mut calls: Vec<GlCall> = Vec::new();
        calls.push(GlCall::BindFramebuffer { target: FRAMEBUFFER, framebuffer });
        calls.push(
            GlCall::FramebufferRenderbuffer {
                target: FRAMEBUFFER,
                attachment: COLOR_ATTACHMENT0,
                renderbuffer_target: RENDERBUFFER,
                renderbuffer: self.renderbuffer,
            },
        );
        calls.push(GlCall::CheckFramebufferStatus { target: FRAMEBUFFER });
        proof {
            assert(calls@ =~= attachment_calls(self.renderbuffer, framebuffer));
        }
        (StatusPending { renderbuffer: self.renderbuffer, framebuffer }, calls)
    }
}

impl StatusPending {
    /// The id of the renderbuffer that was generated.
    pub closed spec fn renderbuffer(&self) -> u32 {
        self.renderbuffer
    }

    /// The id of the framebuffer that was generated.
    pub closed spec fn framebuffer(&self) -> u32 {
        self.framebuffer
    }

    /// Takes the status that the host reports for the framebuffer. Any
    /// status but `FRAMEBUFFER_COMPLETE` ends construction.
    pub fn status_checked(self, status: u32) -> (r: Result<FramebufferIds, FatalError>)
        ensures
            status == FRAMEBUFFER_COMPLETE ==> r.is_ok()
                && r.unwrap().spec_renderbuffer() == self.renderbuffer()
                && r.unwrap().spec_framebuffer() == self.framebuffer(),
            status != FRAMEBUFFER_COMPLETE ==> r == Err::<FramebufferIds, FatalError>(
                FatalError::FramebufferIncomplete(status),
            ),
    {
        if status == FRAMEBUFFER_COMPLETE {
            Ok(FramebufferIds { renderbuffer: self.renderbuffer, framebuffer: self.framebuffer })
        } else {
            Err(FatalError::FramebufferIncomplete(status))
        }
    }
}

/// The answers of a host to one whole construction, in the order in which
/// the calls ask for them.
#[derive(Clone, Copy, Debug, PartialEq, Eq, Structural)]
pub struct FramebufferReplies {
    /// The id that `GenRenderbuffer` gave.
    pub renderbuffer: u32,
    /// Whether the layer gave storage.
    pub storage_granted: bool,
    /// The id that `GenFramebuffer` gave.
    pub framebuffer: u32,
    /// The status that `CheckFramebufferStatus` gave.
    pub status: u32,
}

/// Whether a host that answers so lets construction finish.
pub open spec fn completes(replies: FramebufferReplies) -> bool {
    replies.storage_granted && replies.status == FRAMEBUFFER_COMPLETE
}

/// The condition that construction stops on under these answers. Refused
/// storage comes first: the status is never asked for after it.
pub open spec fn failure_of(replies: FramebufferReplies) -> FatalError {
    if !replies.storage_granted {
        FatalError::RenderbufferStorage
    } else {
        FatalError::FramebufferIncomplete(replies.status)
    }
}

/// Every call that construction makes on a host that answers so, in order.
/// Nothing is asked of the host once it has refused storage.
pub open spec fn calls_made(context: Handle, layer: Handle, replies: FramebufferReplies) -> Seq<GlCall> {
    let opening = opening_calls(context, layer) + storage_calls(context, layer, replies.renderbuffer);
    if replies.storage_granted {
        opening + framebuffer_calls() + attachment_calls(replies.renderbuffer, replies.framebuffer)
    } else {
        opening
    }
}

/// Runs one whole construction against the answers of a host, and gives
/// the validated ids or the condition that stopped it, with every call
/// made up to there.
pub fn build_framebuffer(context: Handle, layer: Handle, replies: &FramebufferReplies) -> (r: (
    Result<FramebufferIds, FatalError>,
    Vec<GlCall>,
))
    ensures
        r.1@ == calls_made(context, layer, *replies),
        completes(*replies) ==> r.0.is_ok()
            && r.0.unwrap().spec_renderbuffer() == replies.renderbuffer
            && r.0.unwrap().spec_framebuffer() == replies.framebuffer,
        !completes(*replies) ==> r.0 == Err::<FramebufferIds, FatalError>(failure_of(*replies)),
{
    let (builder, mut trace) = FramebufferBuilder::begin(context, layer);
    let (pending, mut calls) = builder.renderbuffer_generated(replies.renderbuffer);
    trace.append(&mut calls);
    match pending.storage_allocated(replies.storage_granted) {
        Err(e) => (Err(e), trace),
        Ok((pending, mut calls)) => {
            trace.append(&mut calls);
            let (pending, mut calls) = pending.framebuffer_generated(replies.framebuffer);
            trace.append(&mut calls);
            (pending.status_checked(replies.status), trace)
        },
    }
}

} // verus!
