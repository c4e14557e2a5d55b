use eagl_surface::framebuffer::{build_framebuffer, FramebufferReplies, FRAMEBUFFER_COMPLETE};
use eagl_surface::surface::{
    backing_size, bind_surface, locate_queries, BindStrategy, HostQuery, HostWindow, ScreenGeometry, ViewCall,
    WindowAttributes,
};
use eagl_surface::FatalError;

const HOST: HostWindow = HostWindow { window: 10, controller: 20 };

#[test]
fn surface_at_scale_two() {
    let geometry = ScreenGeometry { width: 375, height: 667, scale_milli: 2000 };
    let (calls, scale) = bind_surface(&WindowAttributes { multitouch: false }, &geometry, &HOST, 30);
    assert_eq!(scale, 2000);
    assert!(calls.contains(&ViewCall::SetContentScaleFactor { view: 30, scale_milli: 2000 }));
    assert_eq!(backing_size(&geometry), (750, 1334));
    let replies =
        FramebufferReplies { renderbuffer: 1, storage_granted: true, framebuffer: 1, status: FRAMEBUFFER_COMPLETE };
    assert!(build_framebuffer(40, 50, &replies).0.is_ok());
    let denied = FramebufferReplies { storage_granted: false, ..replies };
    assert_eq!(build_framebuffer(40, 50, &denied).0, Err(FatalError::RenderbufferStorage));
}

#[test]
fn binding_without_multitouch() {
    let geometry = ScreenGeometry { width: 320, height: 480, scale_milli: 1000 };
    let (calls, scale) = bind_surface(&WindowAttributes { multitouch: false }, &geometry, &HOST, 30);
    assert_eq!(scale, 1000);
    assert_eq!(
        calls,
        vec![
            ViewCall::SetControllerView { controller: 20, view: 30 },
            ViewCall::AddSubview { window: 10, view: 30 },
            ViewCall::SetContentScaleFactor { view: 30, scale_milli: 1000 },
            ViewCall::SetLayerContentsScale { view: 30, scale_milli: 1000 },
        ]
    );
}

#[test]
fn binding_with_multitouch() {
    let geometry = ScreenGeometry { width: 414, height: 736, scale_milli: 3000 };
    let (calls, _) = bind_surface(&WindowAttributes { multitouch: true }, &geometry, &HOST, 31);
    assert_eq!(
        calls,
        vec![
            ViewCall::SetControllerView { controller: 20, view: 31 },
            ViewCall::AddSubview { window: 10, view: 31 },
            ViewCall::SetMultipleTouchEnabled { view: 31 },
            ViewCall::SetContentScaleFactor { view: 31, scale_milli: 3000 },
            ViewCall::SetLayerContentsScale { view: 31, scale_milli: 3000 },
        ]
    );
}

#[test]
fn backing_size_counts_part_pixels_whole() {
    let geometry = ScreenGeometry { width: 414, height: 736, scale_milli: 2608 };
    assert_eq!(backing_size(&geometry), (1080, 1920));
    let sliver = ScreenGeometry { width: 1, height: 1000, scale_milli: 1 };
    assert_eq!(backing_size(&sliver), (1, 1));
    let one = ScreenGeometry { width: 320, height: 480, scale_milli: 1000 };
    assert_eq!(backing_size(&one), (320, 480));
    let none = ScreenGeometry { width: 0, height: 5, scale_milli: 0 };
    assert_eq!(backing_size(&none), (0, 0));
}

#[test]
fn backing_size_at_the_limits() {
    let geometry = ScreenGeometry { width: u32::MAX, height: u32::MAX, scale_milli: u32::MAX };
    assert_eq!(backing_size(&geometry), (18446744065119618, 18446744065119618));
}

#[test]
fn direct_strategy_asks_the_application() {
    assert_eq!(
        locate_queries(BindStrategy::DirectQuery),
        vec![
            HostQuery::SharedApplication,
            HostQuery::KeyWindow,
            HostQuery::RootController,
            HostQuery::MainScreen,
            HostQuery::ScreenBounds,
            HostQuery::ScreenNativeScale,
        ]
    );
}

#[test]
fn delegate_strategy_asks_the_delegate() {
    assert_eq!(
        locate_queries(BindStrategy::DelegateProvided),
        vec![
            HostQuery::SharedApplication,
            HostQuery::ApplicationDelegate,
            HostQuery::DelegateWindow,
            HostQuery::DelegateRootController,
            HostQuery::MainScreen,
            HostQuery::ScreenBounds,
            HostQuery::DelegateScale,
        ]
    );
}
