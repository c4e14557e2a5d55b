use vstd::prelude::*;

verus! {

/// The notifications that the host application delivers about its own state.
#[derive(Clone, Copy, Debug, PartialEq, Eq, Structural)]
pub enum HostNotification {
    DidBecomeActive,
    WillResignActive,
    DidEnterBackground,
    WillEnterForeground,
    WillTerminate,
}

/// The events that consumers of the surface see.
#[derive(Clone, Copy, Debug, PartialEq, Eq, Structural)]
pub enum LifecycleEvent {
    Focused(bool),
    Suspended(bool),
    Closed,
}

/// The event that stands for a host notification.
pub open spec fn event_of(n: HostNotification) -> LifecycleEvent {
    match n {
        HostNotification::DidBecomeActive => LifecycleEvent::Focused(true),
        HostNotification::WillResignActive => LifecycleEvent::Focused(false),
        HostNotification::DidEnterBackground => LifecycleEvent::Suspended(true),
        HostNotification::WillEnterForeground => LifecycleEvent::Suspended(false),
        HostNotification::WillTerminate => LifecycleEvent::Closed,
    }
}

/// The notification that an event stands for.
pub open spec fn notification_of(e: LifecycleEvent) -> HostNotification {
    match e {
        LifecycleEvent::Focused(true) => HostNotification::DidBecomeActive,
        LifecycleEvent::Focused(false) => HostNotification::WillResignActive,
        LifecycleEvent::Suspended(true) => HostNotification::DidEnterBackground,
        LifecycleEvent::Suspended(false) => HostNotification::WillEnterForeground,
        LifecycleEvent::Closed => HostNotification::WillTerminate,
    }
}

/// Whether `Closed` has been emitted once `ns` were delivered to a mapper
/// that started out closed or not, as `closed` says.
pub open spec fn closed_after(closed: bool, ns: Seq<HostNotification>) -> bool {
    closed || exists|i: int| 0 <= i < ns.len() && ns[i] == HostNotification::WillTerminate
}

/// The events that a mapper emits for `ns`, delivered in order: one per
/// notification until `Closed` has gone out, none after it.
pub open spec fn emitted(closed: bool, ns: Seq<HostNotification>) -> Seq<LifecycleEvent>
    decreases ns.len(),
{
    if ns.len() == 0 {
        Seq::empty()
    } else if closed_after(closed, ns.drop_last()) {
        emitted(closed, ns.drop_last())
    } else {
        emitted(closed, ns.drop_last()).push(event_of(ns.last()))
    }
}

/// Gives the event that stands for one host notification.
pub fn map_notification(n: HostNotification) -> (e: LifecycleEvent)
    ensures
        e == event_of(n),
{
    match n {
        HostNotification::DidBecomeActive => LifecycleEvent::Focused(true),
        HostNotification::WillResignActive => LifecycleEvent::Focused(false),
        HostNotification::DidEnterBackground => LifecycleEvent::Suspended(true),
        HostNotification::WillEnterForeground => LifecycleEvent::Suspended(false),
        HostNotification::WillTerminate => LifecycleEvent::Closed,
    }
}

/// Whether graphics resources are to be released on this event. The host may
/// kill a suspended process without another notification, so the release
/// belongs to `Suspended(true)` and to no other event.
pub fn must_release_resources(e: LifecycleEvent) -> (r: bool)
    ensures
        r == (e == LifecycleEvent::Suspended(true)),
{
    match e {
        LifecycleEvent::Suspended(on) => on,
        _ => false,
    }
}

/// Turns the host's notifications into events and remembers whether `Closed`
/// has gone out. A closed mapper emits nothing more, and no drawing call may
/// be made once it is closed.
#[derive(Clone, Copy, Debug)]
pub struct LifecycleEventMapper {
    closed: bool,
}

impl LifecycleEventMapper {
    /// Whether `Closed` has been emitted.
    pub closed spec fn is_closed(&self) -> bool {
        self.closed
    }

    /// A mapper for a process that has not been told to terminate.
    pub fn new() -> (m: Self)
        ensures
            !m.is_closed(),
    {
        LifecycleEventMapper { closed: false }
    }

    /// Whether `Closed` has been emitted.
    pub fn closed(&self) -> (r: bool)
        ensures
            r == self.is_closed(),
    {
        self.closed
    }

    /// The guard that every drawing call is gated on: true until `Closed`
    /// has been emitted.
    pub fn may_draw(&self) -> (r: bool)
        ensures
            r == !self.is_closed(),
    {
        !self.closed
    }

    /// Takes one notification and gives the event to deliver, if any.
    pub fn notify(&mut self, n: HostNotification) -> (e: Option<LifecycleEvent>)
        ensures
            old(self).is_closed() ==> e.is_none() && final(self).is_closed(),
            !old(self).is_closed() ==> e == Some(event_of(n)),
            final(self).is_closed() == closed_after(old(self).is_closed(), seq![n]),
            e.is_some() ==> emitted(old(self).is_closed(), seq![n]) == seq![e.unwrap()],
            e.is_none() ==> emitted(old(self).is_closed(), seq![n]) == Seq::<LifecycleEvent>::empty(),
    {
        proof {
            lemma_emitted_one(self.closed, n);
            assert(seq![n][0] == n);
        }
        if self.closed {
            None
        } else {
            let e = map_notification(n);
            if let LifecycleEvent::Closed = e {
                self.closed = true;
            }
            Some(e)
        }
    }

    /// Takes a run of notifications in order and gives the events to deliver.
    pub fn notify_all(&mut self, ns: &Vec<HostNotification>) -> (es: Vec<LifecycleEvent>)
        ensures
            es@ == emitted(old(self).is_closed(), ns@),
            final(self).is_closed() == closed_after(old(self).is_closed(), ns@),
    {
        let ghost start = self.closed;
        let mut es: Vec<LifecycleEvent> = Vec::new();
        let mut i: usize = 0;
        while i < ns.len()
            invariant
                0 <= i <= ns.len(),
                es@ == emitted(start, ns@.take(i as int)),
                self.closed == closed_after(start, ns@.take(i as int)),
            decreases ns.len() - i,
        {
            let ghost before = ns@.take(i as int);
            let ghost after = ns@.take(i + 1);
            proof {
                assert(after.drop_last() == before);
                assert(after.last() == ns@[i as int]);
                if closed_after(start, before) {
                    if !start {
                        let k = choose|k: int| 0 <= k < before.len() && before[k] == HostNotification::WillTerminate;
                        assert(after[k] == HostNotification::WillTerminate);
                    }
                }
                if ns@[i as int] == HostNotification::WillTerminate {
                    assert(after[i as int] == HostNotification::WillTerminate);
                }
                if closed_after(start, after) && !start {
                    let k = choose|k: int| 0 <= k < after.len() && after[k] == HostNotification::WillTerminate;
                    if k < i {
                        assert(before[k] == HostNotification::WillTerminate);
                    }
                }
            }
            if !self.closed {
                let e = map_notification(ns[i]);
                if let LifecycleEvent::Closed = e {
                    self.closed = true;
                }
                es.push(e);
            }
            i += 1;
        }
        proof {
            assert(ns@.take(ns.len() as int) == ns@);
        }
        es
    }
}

/// With a single notification the mapper emits its event, or nothing where
/// it was closed before.
pub proof fn lemma_emitted_one(closed: bool, n: HostNotification)
    ensures
        emitted(closed, seq![n]) == if closed {
            Seq::<LifecycleEvent>::empty()
        } else {
            seq![event_of(n)]
        },
{
    let s = seq![n];
    assert(s.drop_last() == Seq::<HostNotification>::empty());
    assert(s.last() == n);
    assert(emitted(closed, s.drop_last()) == Seq::<LifecycleEvent>::empty());
    assert(closed_after(closed, s.drop_last()) == closed);
    assert(Seq::<LifecycleEvent>::empty().push(event_of(n)) == seq![event_of(n)]);
}

/// The mapping is one to one and onto: two notifications with the same event
/// are the same notification, and every event stands for exactly one of the
/// five notifications.
pub proof fn lemma_mapping_exact(a: HostNotification, b: HostNotification, e: LifecycleEvent)
    ensures
        event_of(a) == event_of(b) ==> a == b,
        notification_of(event_of(a)) == a,
        event_of(notification_of(e)) == e,
{
}

/// A closed mapper emits nothing, whatever it is told, and stays closed.
pub proof fn lemma_closed_is_terminal(ns: Seq<HostNotification>)
    ensures
        emitted(true, ns) == Seq::<LifecycleEvent>::empty(),
        closed_after(true, ns),
    decreases ns.len(),
{
    if ns.len() > 0 {
        lemma_closed_is_terminal(ns.drop_last());
    }
}

/// Until the host says that it will terminate, every notification gives
/// its event, one for one and in order, and the mapper stays open.
pub proof fn lemma_emitted_while_open(ns: Seq<HostNotification>)
    requires
        forall|i: int| 0 <= i < ns.len() ==> ns[i] != HostNotification::WillTerminate,
    ensures
        !closed_after(false, ns),
        emitted(false, ns).len() == ns.len(),
        forall|i: int| 0 <= i < ns.len() ==> emitted(false, ns)[i] == event_of(ns[i]),
    decreases ns.len(),
{
    if ns.len() > 0 {
        let prev = ns.drop_last();
        lemma_emitted_while_open(prev);
        assert forall|i: int| 0 <= i < ns.len() implies emitted(false, ns)[i] == event_of(ns[i]) by {
            if i < prev.len() {
                assert(prev[i] == ns[i]);
            }
        }
    }
}

/// `Closed` is emitted at most once and nothing follows it: it stands
/// nowhere but at the end of what an open mapper emits, and it stands
/// there exactly when the mapper has closed.
pub proof fn lemma_closed_comes_last(ns: Seq<HostNotification>)
    ensures
        forall|i: int|
            0 <= i < emitted(false, ns).len() - 1 ==> emitted(false, ns)[i] != LifecycleEvent::Closed,
        closed_after(false, ns) <==> emitted(false, ns).len() > 0 && emitted(false, ns).last()
            == LifecycleEvent::Closed,
        emitted(false, ns).len() <= ns.len(),
    decreases ns.len(),
{
    if ns.len() > 0 {
        let prev = ns.drop_last();
        lemma_closed_comes_last(prev);
        if closed_after(false, prev) {
            let k = choose|k: int| 0 <= k < prev.len() && prev[k] == HostNotification::WillTerminate;
            assert(ns[k] == HostNotification::WillTerminate);
        } else {
            if ns.last() == HostNotification::WillTerminate {
                assert(ns[ns.len() - 1] == HostNotification::WillTerminate);
            }
            if closed_after(false, ns) {
                let k = choose|k: int| 0 <= k < ns.len() && ns[k] == HostNotification::WillTerminate;
                if k < prev.len() {
                    assert(prev[k] == HostNotification::WillTerminate);
                }
            }
        }
    }
}

} // verus!
