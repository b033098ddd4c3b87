//! Classification of raw kernel input events into touch events.
use vstd::prelude::*;

verus! {

/// Kernel event type of key and button reports.
pub const EV_KEY: u16 = 1;

/// Kernel event type of absolute axis reports.
pub const EV_ABS: u16 = 3;

/// Absolute axis code of the X coordinate.
pub const ABS_X: u16 = 0;

/// Absolute axis code of the Y coordinate.
pub const ABS_Y: u16 = 1;

/// Key code of the primary (left) button.
pub const BTN_LEFT: u16 = 0x110;

/// Key code of a touch contact.
pub const BTN_TOUCH: u16 = 0x14a;

/// One event as the kernel delivers it: type, code and value.
#[derive(Clone, Copy, Debug, PartialEq, Eq, Structural)]
pub struct RawEvent {
    pub kind: u16,
    pub code: u16,
    pub value: i32,
}

/// The three kinds of event that reach the host.
#[derive(Clone, Copy, Debug, PartialEq, Eq, Structural)]
pub enum EventClass {
    XAxis,
    YAxis,
    Touch,
}

/// An event forwarded to the host, carrying the raw kernel value.
#[derive(Clone, Copy, Debug, PartialEq, Eq, Structural)]
pub enum TouchEvent {
    XCoordinate(i32),
    YCoordinate(i32),
    TouchKey(i32),
}

/// The class of an event, decided by its type and code alone.
pub open spec fn class_of(kind: u16, code: u16) -> Option<EventClass> {
    if kind == EV_ABS && code == ABS_X {
        Some(EventClass::XAxis)
    } else if kind == EV_ABS && code == ABS_Y {
        Some(EventClass::YAxis)
    } else if kind == EV_KEY && (code == BTN_TOUCH || code == BTN_LEFT) {
        Some(EventClass::Touch)
    } else {
        None
    }
}

pub open spec fn with_value(class: EventClass, value: i32) -> TouchEvent {
    match class {
        EventClass::XAxis => TouchEvent::XCoordinate(value),
        EventClass::YAxis => TouchEvent::YCoordinate(value),
        EventClass::Touch => TouchEvent::TouchKey(value),
    }
}

/// What a raw event becomes: nothing when its class is none of the three.
pub open spec fn classify(e: RawEvent) -> Option<TouchEvent> {
    match class_of(e.kind, e.code) {
        Some(c) => Some(with_value(c, e.value)),
        None => None,
    }
}

/// The touch events that a run of raw events yields, in delivery order.
pub open spec fn translated(events: Seq<RawEvent>) -> Seq<TouchEvent>
    decreases events.len(),
{
    if events.len() == 0 {
        Seq::empty()
    } else {
        let rest = translated(events.drop_last());
        match classify(events.last()) {
            Some(t) => rest.push(t),
            None => rest,
        }
    }
}

/// Classifies one raw event.
pub fn translate_event(e: RawEvent) -> (r: Option<TouchEvent>)
    ensures
        r == classify(e),
{
    if e.kind == EV_ABS && e.code == ABS_X {
        Some(TouchEvent::XCoordinate(e.value))
    } else if e.kind == EV_ABS && e.code == ABS_Y {
        Some(TouchEvent::YCoordinate(e.value))
    } else if e.kind == EV_KEY && (e.code == BTN_TOUCH || e.code == BTN_LEFT) {
        Some(TouchEvent::TouchKey(e.value))
    } else {
        None
    }
}

/// Translates a drained batch, keeping kernel delivery order and dropping
/// the events of no class.
pub fn translate_events(events: &Vec<RawEvent>) -> (r: Vec<TouchEvent>)
    ensures
        r@ == translated(events@),
{
    let mut out: Vec<TouchEvent> = Vec::new();
    let mut i: usize = 0;
    while i < events.len()
        invariant
            i <= events.len(),
            out@ == translated(events@.subrange(0, i as int)),
        decreases events.len() - i,
    {
        let e = events[i];
        proof {
            assert(events@.subrange(0, i + 1).drop_last() =~= events@.subrange(0, i as int));
        }
        match translate_event(e) {
            Some(t) => out.push(t),
            None => {},
        }
        i = i + 1;
    }
    proof {
        assert(events@.subrange(0, events.len() as int) =~= events@);
    }
    out
}

/// Forwarding keeps order: the events of a run are those of its first part
/// followed by those of the rest, so a batch's events leave in delivery order.
pub proof fn lemma_translated_append(a: Seq<RawEvent>, b: Seq<RawEvent>)
    ensures
        translated(a + b) == translated(a) + translated(b),
    decreases b.len(),
{
    if b.len() == 0 {
        assert(a + b =~= a);
        assert(translated(b) =~= Seq::<TouchEvent>::empty());
        assert(translated(a) + translated(b) =~= translated(a));
    } else {
        lemma_translated_append(a, b.drop_last());
        assert((a + b).drop_last() =~= a + b.drop_last());
        assert((a + b).last() == b.last());
        match classify(b.last()) {
            Some(t) => {
                assert(translated(a) + translated(b.drop_last()).push(t) =~= (translated(a)
                    + translated(b.drop_last())).push(t));
            },
            None => {},
        }
    }
}

/// A single event yields its classification; the class depends on the type
/// and code alone, and the forwarded value is the raw value unchanged.
pub proof fn lemma_classified_by_kind_and_code(e1: RawEvent, e2: RawEvent)
    ensures
        translated(seq![e1]) == (match classify(e1) {
            Some(t) => seq![t],
            None => Seq::<TouchEvent>::empty(),
        }),
        e1.kind == e2.kind && e1.code == e2.code ==> classify(e1) == (match classify(e2) {
            Some(t) => Some(with_value(class_of(e2.kind, e2.code)->0, e1.value)),
            None => None,
        }),
{
    let s = seq![e1];
    assert(s.drop_last() =~= Seq::<RawEvent>::empty());
    assert(translated(s.drop_last()) == Seq::<TouchEvent>::empty());
    assert(s.last() == e1);
    match classify(e1) {
        Some(t) => {
            assert(Seq::<TouchEvent>::empty().push(t) =~= seq![t]);
        },
        None => {},
    }
}

} // verus!
