use vstd::prelude::*;
use crate::host::Handle;

verus! {

/// The options of a window that the surface reads.
#[derive(Clone, Copy, Debug, PartialEq, Eq, Structural)]
pub struct WindowAttributes {
    /// Whether the view is to receive more than one touch at a time.
    pub multitouch: bool,
}

/// The main screen as the host reports it: its bounds in points, and its
/// native pixel scale in thousandths (2000 for a scale of two).
#[derive(Clone, Copy, Debug, PartialEq, Eq, Structural)]
pub struct ScreenGeometry {
    pub width: u32,
    pub height: u32,
    pub scale_milli: u32,
}

/// The window and the root controller that the host names.
#[derive(Clone, Copy, Debug, PartialEq, Eq, Structural)]
pub struct HostWindow {
    pub window: Handle,
    pub controller: Handle,
}

/// The two ways to learn the window, the controller and the scale.
#[derive(Clone, Copy, Debug, PartialEq, Eq, Structural)]
pub enum BindStrategy {
    /// Ask the shared application for its key window and that window's
    /// root controller, and the main screen for its scale.
    DirectQuery,
    /// Ask the application delegate, which exposes all three.
    DelegateProvided,
}

/// One question to the host.
#[derive(Clone, Copy, Debug, PartialEq, Eq, Structural)]
pub enum HostQuery {
    SharedApplication,
    KeyWindow,
    RootController,
    MainScreen,
    ScreenBounds,
    ScreenNativeScale,
    ApplicationDelegate,
    DelegateWindow,
    DelegateRootController,
    DelegateScale,
}

/// The questions of a strategy, in the order in which they are asked.
pub open spec fn queries_of(strategy: BindStrategy) -> Seq<HostQuery> {
    match strategy {
        BindStrategy::DirectQuery => seq![
            HostQuery::SharedApplication,
            HostQuery::KeyWindow,
            HostQuery::RootController,
            HostQuery::MainScreen,
            HostQuery::ScreenBounds,
            HostQuery::ScreenNativeScale,
        ],
        BindStrategy::DelegateProvided => seq![
            HostQuery::SharedApplication,
            HostQuery::ApplicationDelegate,
            HostQuery::DelegateWindow,
            HostQuery::DelegateRootController,
            HostQuery::MainScreen,
            HostQuery::ScreenBounds,
            HostQuery::DelegateScale,
        ],
    }
}

/// The questions that the driver puts to the host under a strategy.
pub fn locate_queries(strategy: BindStrategy) -> (qs: Vec<HostQuery>)
    ensures
        qs@ == queries_of(strategy),
{
    let mut qs: Vec<HostQuery> = Vec::new();
    qs.push(HostQuery::SharedApplication);
    match strategy {
        BindStrategy::DirectQuery => {
            qs.push(HostQuery::KeyWindow);
            qs.push(HostQuery::RootController);
            qs.push(HostQuery::MainScreen);
            qs.push(HostQuery::ScreenBounds);
            qs.push(HostQuery::ScreenNativeScale);
        },
        BindStrategy::DelegateProvided => {
            qs.push(HostQuery::ApplicationDelegate);
            qs.push(HostQuery::DelegateWindow);
            qs.push(HostQuery::DelegateRootController);
            qs.push(HostQuery::MainScreen);
            qs.push(HostQuery::ScreenBounds);
            qs.push(HostQuery::DelegateScale);
        },
    }
    proof {
        assert(qs@ =~= queries_of(strategy));
    }
    qs
}

/// One call on the view or its surroundings.
#[derive(Clone, Copy, Debug, PartialEq, Eq, Structural)]
pub enum ViewCall {
    SetControllerView { controller: Handle, view: Handle },
    AddSubview { window: Handle, view: Handle },
    SetMultipleTouchEnabled { view: Handle },
    SetContentScaleFactor { view: Handle, scale_milli: u32 },
    SetLayerContentsScale { view: Handle, scale_milli: u32 },
}

/// The calls that put a view on screen: it becomes the controller's view
/// and a subview of the window, takes more than one touch where that was
/// asked for, and it and its layer get the screen's native scale.
pub open spec fn binding_calls(
    attrs: WindowAttributes,
    geometry: ScreenGeometry,
    host: HostWindow,
    view: Handle,
) -> Seq<ViewCall> {
    let attach = seq![
        ViewCall::SetControllerView { controller: host.controller, view },
        ViewCall::AddSubview { window: host.window, view },
    ];
    let touch = if attrs.multitouch {
        seq![ViewCall::SetMultipleTouchEnabled { view }]
    } else {
        Seq::<ViewCall>::empty()
    };
    let scale = seq![
        ViewCall::SetContentScaleFactor { view, scale_milli: geometry.scale_milli },
        ViewCall::SetLayerContentsScale { view, scale_milli: geometry.scale_milli },
    ];
    attach + touch + scale
}

/// Binds a view of the registered type, made to the screen's bounds, into
/// the host's hierarchy. Gives the calls to make and the scale that the
/// surface is built at, in thousandths.
pub fn bind_surface(
    attrs: &WindowAttributes,
    geometry: &ScreenGeometry,
    host: &HostWindow,
    view: Handle,
) -> (r: (Vec<ViewCall>, u32))
    ensures
        r.0@ == binding_calls(*attrs, *geometry, *host, view),
        r.1 == geometry.scale_milli,
{
    let mut calls: Vec<ViewCall> = Vec::new();
    calls.push(ViewCall::SetControllerView { controller: host.controller, view });
    calls.push(ViewCall::AddSubview { window: host.window, view });
    if attrs.multitouch {
        calls.push(ViewCall::SetMultipleTouchEnabled { view });
    }
    calls.push(ViewCall::SetContentScaleFactor { view, scale_milli: geometry.scale_milli });
    calls.push(ViewCall::SetLayerContentsScale { view, scale_milli: geometry.scale_milli });
    proof {
        assert(calls@ =~= binding_calls(*attrs, *geometry, *host, view));
    }
    (calls, geometry.scale_milli)
}

/// A length in points as whole device pixels at a scale in thousandths; a
/// pixel that is covered in part counts whole.
pub open spec fn device_pixels(points: u32, scale_milli: u32) -> int {
    (points as int * scale_milli as int + 999) / 1000
}

/// The size in device pixels of the storage that backs a view which fills
/// the screen.
pub fn backing_size(geometry: &ScreenGeometry) -> (r: (u64, u64))
    ensures
        r.0 == device_pixels(geometry.width, geometry.scale_milli),
        r.1 == device_pixels(geometry.height, geometry.scale_milli),
{
    (scaled(geometry.width, geometry.scale_milli), scaled(geometry.height, geometry.scale_milli))
}

fn scaled(points: u32, scale_milli: u32) -> (r: u64)
    ensures
        r == device_pixels(points, scale_milli),
{
    let p: u64 = points as u64;
    let s: u64 = scale_milli as u64;
    assert(p * s <= 0xFFFF_FFFF * 0xFFFF_FFFF) by (nonlinear_arith)
        requires
            p <= 0xFFFF_FFFF,
            s <= 0xFFFF_FFFF,
    ;
    (p * s + 999) / 1000
}

} // verus!
