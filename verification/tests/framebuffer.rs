use eagl_surface::framebuffer::{
    build_framebuffer, drawable_properties, ColorFormat, FramebufferBuilder, FramebufferReplies, GlCall,
    COLOR_ATTACHMENT0, FRAMEBUFFER, FRAMEBUFFER_COMPLETE, RENDERBUFFER,
};
use eagl_surface::FatalError;

fn replies(storage_granted: bool, status: u32) -> FramebufferReplies {
    FramebufferReplies { renderbuffer: 7, storage_granted, framebuffer: 9, status }
}

#[test]
fn gl_constants_have_their_values() {
    assert_eq!(RENDERBUFFER, 36161);
    assert_eq!(FRAMEBUFFER, 36160);
    assert_eq!(COLOR_ATTACHMENT0, 36064);
    assert_eq!(FRAMEBUFFER_COMPLETE, 36053);
}

#[test]
fn drawable_is_sixteen_bit_and_not_retained() {
    let p = drawable_properties();
    assert!(!p.retained_backing);
    assert_eq!(p.color_format, ColorFormat::Rgb565);
}

#[test]
fn complete_construction_gives_both_ids() {
    let (result, calls) = build_framebuffer(100, 200, &replies(true, FRAMEBUFFER_COMPLETE));
    let ids = result.unwrap();
    assert_eq!(ids.renderbuffer(), 7);
    assert_eq!(ids.framebuffer(), 9);
    assert_eq!(
        calls,
        vec![
            GlCall::MakeCurrent { context: 100 },
            GlCall::SetDrawableProperties { layer: 200, properties: drawable_properties() },
            GlCall::GenRenderbuffer,
            GlCall::BindRenderbuffer { target: RENDERBUFFER, renderbuffer: 7 },
            GlCall::RenderbufferStorageFromDrawable { context: 100, target: RENDERBUFFER, layer: 200 },
            GlCall::GenFramebuffer,
            GlCall::BindFramebuffer { target: FRAMEBUFFER, framebuffer: 9 },
            GlCall::FramebufferRenderbuffer {
                target: FRAMEBUFFER,
                attachment: COLOR_ATTACHMENT0,
                renderbuffer_target: RENDERBUFFER,
                renderbuffer: 7,
            },
            GlCall::CheckFramebufferStatus { target: FRAMEBUFFER },
        ]
    );
}

#[test]
fn refused_storage_stops_construction() {
    let (result, calls) = build_framebuffer(100, 200, &replies(false, FRAMEBUFFER_COMPLETE));
    assert_eq!(result, Err(FatalError::RenderbufferStorage));
    assert_eq!(calls.len(), 5);
    assert_eq!(
        calls[4],
        GlCall::RenderbufferStorageFromDrawable { context: 100, target: RENDERBUFFER, layer: 200 }
    );
    assert!(!calls.contains(&GlCall::GenFramebuffer));
}

#[test]
fn incomplete_framebuffer_reports_its_status() {
    let (result, calls) = build_framebuffer(100, 200, &replies(true, 0x8CD6));
    assert_eq!(result, Err(FatalError::FramebufferIncomplete(0x8CD6)));
    assert_eq!(calls.len(), 9);
    let (result, _) = build_framebuffer(100, 200, &replies(true, 0));
    assert_eq!(result, Err(FatalError::FramebufferIncomplete(0)));
}

#[test]
fn refused_storage_comes_before_a_bad_status() {
    let (result, _) = build_framebuffer(1, 2, &replies(false, 0x8CD6));
    assert_eq!(result, Err(FatalError::RenderbufferStorage));
}

#[test]
fn stages_one_by_one() {
    let (builder, calls) = FramebufferBuilder::begin(5, 6);
    assert_eq!(calls.len(), 3);
    assert_eq!(calls[0], GlCall::MakeCurrent { context: 5 });
    let (pending, calls) = builder.renderbuffer_generated(11);
    assert_eq!(calls[0], GlCall::BindRenderbuffer { target: RENDERBUFFER, renderbuffer: 11 });
    let (pending, calls) = pending.storage_allocated(true).ok().unwrap();
    assert_eq!(calls, vec![GlCall::GenFramebuffer]);
    let (pending, calls) = pending.framebuffer_generated(12);
    assert_eq!(calls[0], GlCall::BindFramebuffer { target: FRAMEBUFFER, framebuffer: 12 });
    let ids = pending.status_checked(FRAMEBUFFER_COMPLETE).unwrap();
    assert_eq!((ids.renderbuffer(), ids.framebuffer()), (11, 12));
}

#[test]
fn fatal_errors_name_themselves() {
    assert_eq!(FatalError::RenderbufferStorage.message(), "EAGL: could not set renderbufferStorage");
    assert_eq!(FatalError::FramebufferIncomplete(3).message(), "framebuffer status");
    assert_eq!(FatalError::FramebufferIncomplete(3).status(), Some(3));
    assert_eq!(FatalError::RenderbufferStorage.status(), None);
    assert_eq!(FatalError::ViewTypeRegistration.status(), None);
    assert_eq!(FatalError::ViewTypeRegistration.message(), "could not register the view type");
}
