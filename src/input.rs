//! Which input devices are listened to, and how a listener turns what it
//! reads into activity signals.
use vstd::prelude::*;

verus! {

/// The Linux key code of the `A` key, present on every keyboard and absent
/// from mice and touchpads.
pub const KEY_A_CODE: u16 = 30;

/// Prefix of the event device nodes under `/dev/input`.
pub const EVENT_NODE_PREFIX: &'static str = "event";

/// The kind of a raw input event, as far as a listener cares.
#[derive(Debug, Clone, Copy, PartialEq, Eq, Structural)]
pub enum EventKind {
    Key,
    Other,
}

/// One raw input event: its kind and its value (for a key: 0 up, 1 down,
/// 2 repeat).
#[derive(Debug, Clone, Copy, PartialEq, Eq, Structural)]
pub struct RawEvent {
    pub kind: EventKind,
    pub value: i32,
}

/// What one blocking read of a device gave.
pub enum ReadOutcome {
    Events(Vec<RawEvent>),
    Failed,
}

/// What a listener does after a read.
#[derive(Debug, Clone, Copy, PartialEq, Eq, Structural)]
pub enum ListenerAction {
    /// Send this many activity signals, then read again.
    Signal(usize),
    /// Stop listening: the device is gone.
    Stop,
}

pub open spec fn is_key_down_spec(e: RawEvent) -> bool {
    e.kind == EventKind::Key && e.value == 1
}

/// The number of key-down events in `events`.
pub open spec fn key_downs(events: Seq<RawEvent>) -> nat
    decreases events.len(),
{
    if events.len() == 0 {
        0
    } else {
        key_downs(events.drop_last()) + if is_key_down_spec(events.last()) {
            1nat
        } else {
            0nat
        }
    }
}

pub open spec fn has_prefix(s: Seq<char>, prefix: Seq<char>) -> bool {
    prefix.len() <= s.len() && s.subrange(0, prefix.len() as int) == prefix
}

/// Whether the supported key codes are reported and include `A`.
pub open spec fn reports_key_a(supported: Option<&Vec<u16>>) -> bool {
    match supported {
        Some(keys) => keys@.contains(KEY_A_CODE),
        None => false,
    }
}

/// Relies on `str::starts_with` with a `&str` pattern: true exactly when
/// `prefix` is a prefix of `s`.
#[verifier::external_body]
fn starts_with(s: &str, prefix: &str) -> (r: bool)
    ensures
        r == has_prefix(s@, prefix@),
{
    s.starts_with(prefix)
}

/// Whether an event is a key press (not a release or a repeat).
pub fn is_key_down(e: &RawEvent) -> (r: bool)
    ensures
        r == is_key_down_spec(*e),
{
    e.kind == EventKind::Key && e.value == 1
}

/// The number of activity signals that a batch of events yields.
pub fn key_down_count(events: &Vec<RawEvent>) -> (r: usize)
    ensures
        r == key_downs(events@),
{
    let mut n: usize = 0;
    let mut i: usize = 0;
    while i < events.len()
        invariant
            i <= events@.len(),
            n == key_downs(events@.subrange(0, i as int)),
            n <= i,
        decreases events@.len() - i,
    {
        assert(events@.subrange(0, i + 1).drop_last() == events@.subrange(0, i as int));
        if is_key_down(&events[i]) {
            n = n + 1;
        }
        i = i + 1;
    }
    assert(events@.subrange(0, events@.len() as int) == events@);
    n
}

/// Whether a device with these supported key codes is a keyboard: it must
/// report its keys, and they must include `A`.
pub fn has_keyboard_keys(supported: Option<&Vec<u16>>) -> (r: bool)
    ensures
        r == reports_key_a(supported),
{
    match supported {
        None => false,
        Some(keys) => {
            let mut i: usize = 0;
            while i < keys.len()
                invariant
                    supported == Some(keys),
                    i <= keys@.len(),
                    forall|j: int| 0 <= j < i ==> keys@[j] != KEY_A_CODE,
                decreases keys@.len() - i,
            {
                if keys[i] == KEY_A_CODE {
                    assert(keys@.contains(keys@[i as int]));
                    return true;
                }
                i = i + 1;
            }
            assert(!keys@.contains(KEY_A_CODE));
            false
        },
    }
}

/// Whether a node of the input directory is an event device.
pub fn is_event_node(name: &str) -> (r: bool)
    ensures
        r == has_prefix(name@, EVENT_NODE_PREFIX@),
{
    starts_with(name, EVENT_NODE_PREFIX)
}

/// Whether to start a listener for the node `name`, given the key codes that
/// the opened device reports (`None` when it reports none).
pub fn should_listen(name: &str, supported: Option<&Vec<u16>>) -> (r: bool)
    ensures
        r == (has_prefix(name@, EVENT_NODE_PREFIX@) && reports_key_a(supported)),
{
    is_event_node(name) && has_keyboard_keys(supported)
}

/// A listener's decision after one read: a batch of events yields one signal
/// per key press and the listener reads on; a failed read ends it.
pub fn listener_step(outcome: &ReadOutcome) -> (r: ListenerAction)
    ensures
        r == (match outcome {
            ReadOutcome::Events(events) => ListenerAction::Signal(key_downs(events@) as usize),
            ReadOutcome::Failed => ListenerAction::Stop,
        }),
{
    match outcome {
        ReadOutcome::Events(events) => ListenerAction::Signal(key_down_count(events)),
        ReadOutcome::Failed => ListenerAction::Stop,
    }
}

} // verus!
