use vstd::prelude::*;
use crate::error::FatalError;

verus! {

/// The autoresizing flag for a width that follows the parent's.
pub const FLEXIBLE_WIDTH: u32 = 2;

/// The autoresizing flag for a height that follows the parent's.
pub const FLEXIBLE_HEIGHT: u32 = 16;

/// The view type that the registrar defines: its name, the type it
/// extends, the type of its backing layer, and the selectors of the two
/// methods it adds.
#[derive(Clone, Copy, Debug)]
pub struct ViewTypeDecl {
    pub name: &'static str,
    pub superclass: &'static str,
    pub layer_class: &'static str,
    pub initializer: &'static str,
    pub layer_class_method: &'static str,
}

/// The definition of the view type.
pub fn view_type() -> (d: ViewTypeDecl)
    ensures
        d.name@ == "MainView"@,
        d.superclass@ == "UIView"@,
        d.layer_class@ == "CAEAGLLayer"@,
        d.initializer@ == "initForGl:"@,
        d.layer_class_method@ == "layerClass"@,
{
    ViewTypeDecl {
        name: "MainView",
        superclass: "UIView",
        layer_class: "CAEAGLLayer",
        initializer: "initForGl:",
        layer_class_method: "layerClass",
    }
}

/// One step of the view's initializer.
#[derive(Clone, Copy, Debug, PartialEq, Eq, Structural)]
pub enum ViewInitStep {
    /// The standard initializer with a frame.
    InitWithFrame,
    SetAutoresizingMask(u32),
    SetAutoresizesSubviews(bool),
    SetLayerOpaque(bool),
}

/// The autoresizing mask of the view: both flags, and no other bit.
pub open spec fn spec_autoresizing_mask() -> u32 {
    18
}

/// The autoresizing mask of the view.
pub fn autoresizing_mask() -> (m: u32)
    ensures
        m == spec_autoresizing_mask(),
        m == FLEXIBLE_WIDTH | FLEXIBLE_HEIGHT,
{
    assert(2u32 | 16u32 == 18u32) by (bit_vector);
    FLEXIBLE_WIDTH | FLEXIBLE_HEIGHT
}

/// What the initializer of the view does, in order.
pub open spec fn spec_initializer_steps() -> Seq<ViewInitStep> {
    seq![
        ViewInitStep::InitWithFrame,
        ViewInitStep::SetAutoresizingMask(spec_autoresizing_mask()),
        ViewInitStep::SetAutoresizesSubviews(true),
        ViewInitStep::SetLayerOpaque(true),
    ]
}

/// What the initializer of the view does, in order.
pub fn initializer_steps() -> (steps: Vec<ViewInitStep>)
    ensures
        steps@ == spec_initializer_steps(),
{
    let mut steps: Vec<ViewInitStep> = Vec::new();
    steps.push(ViewInitStep::InitWithFrame);
    steps.push(ViewInitStep::SetAutoresizingMask(autoresizing_mask()));
    steps.push(ViewInitStep::SetAutoresizesSubviews(true));
    steps.push(ViewInitStep::SetLayerOpaque(true));
    proof {
        assert(steps@ =~= spec_initializer_steps());
    }
    steps
}

/// What the driver does when a surface asks for the view type.
#[derive(Clone, Copy, Debug, PartialEq, Eq, Structural)]
pub enum RegistrarAction {
    /// Define the type in the host runtime.
    Declare,
    /// The type is defined already: use it.
    Reuse,
}

/// The action for a request that finds the type defined or not.
pub open spec fn action_for(registered: bool) -> RegistrarAction {
    if registered {
        RegistrarAction::Reuse
    } else {
        RegistrarAction::Declare
    }
}

/// How many of `requests` requests in a row ask for a definition, the first
/// of them finding the type defined or not as `registered` says.
pub open spec fn declarations(registered: bool, requests: nat) -> nat
    decreases requests,
{
    if requests == 0 {
        0
    } else if registered {
        declarations(true, (requests - 1) as nat)
    } else {
        1 + declarations(true, (requests - 1) as nat)
    }
}

/// Remembers whether the view type has been defined. One registrar stands
/// for the whole process; a driver that shares it between threads guards
/// it with a primitive that lets one request in at a time.
#[derive(Debug)]
pub struct ViewTypeRegistrar {
    registered: bool,
}

impl ViewTypeRegistrar {
    /// Whether a definition has been asked for.
    pub closed spec fn is_registered(&self) -> bool {
        self.registered
    }

    /// The registrar of a process that has defined nothing yet.
    pub fn new() -> (r: Self)
        ensures
            !r.is_registered(),
    {
        ViewTypeRegistrar { registered: false }
    }

    /// Whether a definition has been asked for.
    pub fn registered(&self) -> (r: bool)
        ensures
            r == self.is_registered(),
    {
        self.registered
    }

    /// Asks for the view type. The first request is answered with
    /// `Declare`, every later one with `Reuse`.
    pub fn ensure_registered(&mut self) -> (a: RegistrarAction)
        ensures
            a == action_for(old(self).is_registered()),
            final(self).is_registered(),
    {
        if self.registered {
            RegistrarAction::Reuse
        } else {
            self.registered = true;
            RegistrarAction::Declare
        }
    }
}

/// Takes the host runtime's answer to a definition. A refusal cannot be
/// recovered from.
pub fn registration_answered(accepted: bool) -> (r: Result<(), FatalError>)
    ensures
        accepted ==> r == Ok::<(), FatalError>(()),
        !accepted ==> r == Err::<(), FatalError>(FatalError::ViewTypeRegistration),
{
    if accepted {
        Ok(())
    } else {
        Err(FatalError::ViewTypeRegistration)
    }
}

/// Any number of requests, one at least, on a registrar that has defined
/// nothing make exactly one definition; on one that has, none.
pub proof fn lemma_registered_once(requests: nat)
    ensures
        declarations(true, requests) == 0,
        requests >= 1 ==> declarations(false, requests) == 1,
    decreases requests,
{
    if requests > 0 {
        lemma_registered_once((requests - 1) as nat);
    }
}

} // verus!
