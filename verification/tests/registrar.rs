use eagl_surface::registrar::{
    autoresizing_mask, initializer_steps, registration_answered, view_type, RegistrarAction, ViewInitStep,
    ViewTypeRegistrar, FLEXIBLE_HEIGHT, FLEXIBLE_WIDTH,
};
use eagl_surface::FatalError;

#[test]
fn first_request_declares() {
    let mut registrar = ViewTypeRegistrar::new();
    assert!(!registrar.registered());
    assert_eq!(registrar.ensure_registered(), RegistrarAction::Declare);
    assert!(registrar.registered());
}

#[test]
fn many_requests_declare_once() {
    for n in 1..20 {
        let mut registrar = ViewTypeRegistrar::new();
        let mut declared = 0;
        for _ in 0..n {
            if registrar.ensure_registered() == RegistrarAction::Declare {
                declared += 1;
            }
        }
        assert_eq!(declared, 1);
        assert!(registrar.registered());
    }
}

#[test]
fn later_requests_reuse() {
    let mut registrar = ViewTypeRegistrar::new();
    registrar.ensure_registered();
    assert_eq!(registrar.ensure_registered(), RegistrarAction::Reuse);
    assert_eq!(registrar.ensure_registered(), RegistrarAction::Reuse);
}

#[test]
fn refused_registration_is_fatal() {
    assert_eq!(registration_answered(true), Ok(()));
    assert_eq!(registration_answered(false), Err(FatalError::ViewTypeRegistration));
}

#[test]
fn view_type_is_a_gl_backed_view() {
    let decl = view_type();
    assert_eq!(decl.name, "MainView");
    assert_eq!(decl.superclass, "UIView");
    assert_eq!(decl.layer_class, "CAEAGLLayer");
    assert_eq!(decl.initializer, "initForGl:");
    assert_eq!(decl.layer_class_method, "layerClass");
}

#[test]
fn initializer_runs_its_four_steps() {
    assert_eq!(
        initializer_steps(),
        vec![
            ViewInitStep::InitWithFrame,
            ViewInitStep::SetAutoresizingMask(18),
            ViewInitStep::SetAutoresizesSubviews(true),
            ViewInitStep::SetLayerOpaque(true),
        ]
    );
}

#[test]
fn mask_holds_both_flags() {
    assert_eq!(FLEXIBLE_WIDTH, 2);
    assert_eq!(FLEXIBLE_HEIGHT, 16);
    assert_eq!(autoresizing_mask(), 18);
}
