//! Lifecycle events of macro executions and what a listener reads off a stretch of the bus.

use vstd::prelude::*;

use crate::pid::MacroPID;
use crate::status::ExitStatus;
use crate::status::ExitStatusView;

verus! {

/// What happened to an execution.
#[derive(Debug)]
pub enum MacroEventInner {
    /// The worker is set up and the main module is about to run.
    Started,
    /// The script released the host's foreground wait; it keeps running.
    Detach,
    /// The execution ended with the given status.
    Stopped { exit_status: ExitStatus },
}

/// Mathematical model of a [`MacroEventInner`].
pub enum MacroEventInnerView {
    Started,
    Detach,
    Stopped { exit_status: ExitStatusView },
}

impl View for MacroEventInner {
    type V = MacroEventInnerView;

    open spec fn view(&self) -> MacroEventInnerView {
        match self {
            MacroEventInner::Started => MacroEventInnerView::Started,
            MacroEventInner::Detach => MacroEventInnerView::Detach,
            MacroEventInner::Stopped { exit_status } => MacroEventInnerView::Stopped {
                exit_status: exit_status@,
            },
        }
    }
}

impl Clone for MacroEventInner {
    fn clone(&self) -> (copy: MacroEventInner)
        ensures
            copy == *self,
    {
        match self {
            MacroEventInner::Started => MacroEventInner::Started,
            MacroEventInner::Detach => MacroEventInner::Detach,
            MacroEventInner::Stopped { exit_status } => MacroEventInner::Stopped {
                exit_status: exit_status.clone(),
            },
        }
    }
}

/// One record on the event bus.
#[derive(Debug)]
pub struct MacroEvent {
    pub macro_pid: MacroPID,
    pub macro_event_inner: MacroEventInner,
    /// The game instance that owns the execution, if any.
    pub instance_uuid: Option<String>,
}

/// Mathematical model of a [`MacroEvent`].
pub struct MacroEventView {
    pub macro_pid: MacroPID,
    pub macro_event_inner: MacroEventInnerView,
    pub instance_uuid: Option<Seq<char>>,
}

/// The characters of an optional text.
pub open spec fn optional_text(text: Option<String>) -> Option<Seq<char>> {
    match text {
        Some(t) => Some(t@),
        None => None,
    }
}

impl View for MacroEvent {
    type V = MacroEventView;

    open spec fn view(&self) -> MacroEventView {
        MacroEventView {
            macro_pid: self.macro_pid,
            macro_event_inner: self.macro_event_inner@,
            instance_uuid: optional_text(self.instance_uuid),
        }
    }
}

impl Clone for MacroEvent {
    fn clone(&self) -> (copy: MacroEvent)
        ensures
            copy@ == self@,
    {
        MacroEvent {
            macro_pid: self.macro_pid,
            macro_event_inner: self.macro_event_inner.clone(),
            instance_uuid: self.instance_uuid.clone(),
        }
    }
}

/// The models of a run of events, in order.
pub open spec fn event_views(events: Seq<MacroEvent>) -> Seq<MacroEventView> {
    events.map_values(|e: MacroEvent| e@)
}

/// The status that `event` carries for `pid`: present exactly when the event is a
/// `Stopped` of that execution.
pub open spec fn stopped_status(event: MacroEventView, pid: MacroPID) -> Option<ExitStatusView> {
    match event.macro_event_inner {
        MacroEventInnerView::Stopped { exit_status } => if event.macro_pid == pid {
            Some(exit_status)
        } else {
            None
        },
        _ => None,
    }
}

/// Whether `event` announces the start of `pid`.
pub open spec fn is_started_of(event: MacroEventView, pid: MacroPID) -> bool {
    event.macro_pid == pid && event.macro_event_inner is Started
}

/// Whether `event` is the detach signal of `pid`.
pub open spec fn is_detach_of(event: MacroEventView, pid: MacroPID) -> bool {
    event.macro_pid == pid && event.macro_event_inner is Detach
}

/// The status carried by the first `Stopped` event of `pid` in `log`, if there is one.
pub open spec fn first_stopped(log: Seq<MacroEventView>, pid: MacroPID) -> Option<ExitStatusView>
    decreases log.len(),
{
    if log.len() == 0 {
        None
    } else {
        match stopped_status(log[0], pid) {
            Some(status) => Some(status),
            None => first_stopped(log.skip(1), pid),
        }
    }
}

/// Whether `log` holds a detach signal of `pid`.
pub open spec fn detach_seen(log: Seq<MacroEventView>, pid: MacroPID) -> bool {
    exists|i: int| 0 <= i < log.len() && is_detach_of(#[trigger] log[i], pid)
}

/// Whether `log` holds the start announcement of `pid`.
pub open spec fn started_seen(log: Seq<MacroEventView>, pid: MacroPID) -> bool {
    exists|i: int| 0 <= i < log.len() && is_started_of(#[trigger] log[i], pid)
}

impl MacroEvent {
    /// The status this event reports for `pid`, if it is a `Stopped` event of `pid`.
    pub fn exit_status_for(&self, pid: MacroPID) -> (status: Option<ExitStatus>)
        ensures
            crate::status::optional_status(status) == stopped_status(self@, pid),
    {
        match &self.macro_event_inner {
            MacroEventInner::Stopped { exit_status } => {
                if self.macro_pid.0 == pid.0 {
                    Some(exit_status.clone())
                } else {
                    None
                }
            },
            _ => None,
        }
    }

    /// Whether this event announces the start of `pid`.
    pub fn announces_start_of(&self, pid: MacroPID) -> (yes: bool)
        ensures
            yes == is_started_of(self@, pid),
    {
        match &self.macro_event_inner {
            MacroEventInner::Started => self.macro_pid.0 == pid.0,
            _ => false,
        }
    }

    /// Whether this event is the detach signal of `pid`.
    pub fn signals_detach_of(&self, pid: MacroPID) -> (yes: bool)
        ensures
            yes == is_detach_of(self@, pid),
    {
        match &self.macro_event_inner {
            MacroEventInner::Detach => self.macro_pid.0 == pid.0,
            _ => false,
        }
    }
}

/// For a log that starts with `head`, the first `Stopped` of `pid` is the one in `head`
/// if `head` has one, and else the first one in `tail`.
pub proof fn lemma_first_stopped_concat(
    head: Seq<MacroEventView>,
    tail: Seq<MacroEventView>,
    pid: MacroPID,
)
    ensures
        first_stopped(head + tail, pid) == match first_stopped(head, pid) {
            Some(status) => Some(status),
            None => first_stopped(tail, pid),
        },
    decreases head.len(),
{
    if head.len() == 0 {
        assert(head + tail =~= tail);
    } else {
        assert((head + tail).skip(1) =~= head.skip(1) + tail);
        assert((head + tail)[0] == head[0]);
        lemma_first_stopped_concat(head.skip(1), tail, pid);
    }
}

} // verus!
