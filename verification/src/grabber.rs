use vstd::prelude::*;
use crate::processor::SendOutcome;
use crate::types::Screenshot;
use crossbeam_channel::Sender;
use std::sync::atomic::{AtomicBool, Ordering};

verus! {

/// Pause of the window watcher between two looks, in milliseconds.
pub const COFFEE_BREAK_FOR_WATCHER: u64 = 1000;

/// Title of the game window.
pub const WINDOW_TITLE: &'static str = "Last Oasis  ";

/// Whether a window with this title is the game's.
pub fn is_game_title(title: &str) -> (res: bool)
    ensures
        res == (title@ == WINDOW_TITLE@),
{
    title.to_owned() == WINDOW_TITLE.to_owned()
}

/// What the window watcher does after a look for the game window.
#[derive(Clone, Copy, Debug, PartialEq, Eq, Structural)]
pub enum WatchAction {
    /// nothing changed: rest until the next look
    Idle,
    /// the game window appeared or changed: capture it
    StartCapture,
    /// the game window is gone: stop capturing
    StopCapture,
}

pub open spec fn watch_action(prev: Option<usize>, window: Option<usize>) -> WatchAction {
    if prev == window {
        WatchAction::Idle
    } else if window is Some {
        WatchAction::StartCapture
    } else {
        WatchAction::StopCapture
    }
}

/// The watcher's decision, from the window (its handle) seen at the
/// previous look and the one seen now; the one seen now is what the next
/// look compares with.
pub fn watch_step(prev: Option<usize>, window: Option<usize>) -> (res: WatchAction)
    ensures
        res == watch_action(prev, window),
{
    if prev == window {
        WatchAction::Idle
    } else if window.is_some() {
        WatchAction::StartCapture
    } else {
        WatchAction::StopCapture
    }
}

/// What the capture handler does after offering a frame to the
/// processing queue.
#[derive(Clone, Copy, Debug, PartialEq, Eq, Structural)]
pub enum CaptureStep {
    /// the processor is gone: stop capturing
    Stop,
    /// go on, unless a stop was asked for
    CheckStopFlag,
}

pub fn after_frame_sent(outcome: SendOutcome) -> (res: CaptureStep)
    ensures
        res == (if outcome == SendOutcome::Disconnected {
            CaptureStep::Stop
        } else {
            CaptureStep::CheckStopFlag
        }),
{
    match outcome {
        SendOutcome::Disconnected => CaptureStep::Stop,
        _ => CaptureStep::CheckStopFlag,
    }
}

/// Looking twice at the same window does nothing the second time: after a
/// look that saw `window`, another look that sees it again is idle.
pub proof fn lemma_watch_is_idle_when_nothing_changes(prev: Option<usize>, window: Option<usize>)
    ensures
        watch_action(window, window) == WatchAction::Idle,
        watch_action(prev, window) == WatchAction::StartCapture ==> window is Some,
        watch_action(prev, window) == WatchAction::StopCapture ==> prev is Some && window is None,
{
}

/// Declares `crossbeam_channel::Sender` so that the shared block can hold
/// the queue end captured frames go to; nothing inside a sender is visible
/// to proofs.
#[verifier::external_type_specification]
#[verifier::external_body]
#[verifier::reject_recursive_types(T)]
pub struct ExSender<T>(Sender<T>);

/// Flags shared by the main, watcher and capture threads, and the queue end
/// captured frames go to. Each flag is read and written atomically; what
/// it holds at a given moment depends on how the threads interleave, so
/// none of the methods below promises a value.
pub struct CommBlock {
    /// where captured frames go
    pub frame_tx: Sender<Screenshot>,
    /// the watcher thread is running
    watcher_started: AtomicBool,
    /// the watcher thread is asked to stop
    watcher_stop_flag: AtomicBool,
    /// the capture thread is running
    capture_started: AtomicBool,
    /// the capture is active
    capture_active: AtomicBool,
    /// a frame arrived since the flag was last taken
    capture_got_frame: AtomicBool,
    /// the capture is asked to stop
    capture_stop_flag: AtomicBool,
}

impl CommBlock {
    /// The queue end the block sends frames to.
    pub closed spec fn frames_to(&self) -> Sender<Screenshot> {
        self.frame_tx
    }

    /// A block with every flag down, sending frames to `frame_tx`.
    pub fn new(frame_tx: Sender<Screenshot>) -> (res: CommBlock)
        ensures
            res.frames_to() == frame_tx,
    {
        CommBlock {
            frame_tx: frame_tx,
            watcher_started: AtomicBool::new(false),
            watcher_stop_flag: AtomicBool::new(false),
            capture_started: AtomicBool::new(false),
            capture_active: AtomicBool::new(false),
            capture_got_frame: AtomicBool::new(false),
            capture_stop_flag: AtomicBool::new(false),
        }
    }

    /// Sets the watcher-running flag; returns what it was.
    pub fn watcher_started_swap(&self, value: bool) -> bool {
        self.watcher_started.swap(value, Ordering::Acquire)
    }

    pub fn watcher_is_started(&self) -> bool {
        self.watcher_started.load(Ordering::Relaxed)
    }

    /// Sets the capture-running flag; returns what it was.
    pub fn capture_started_swap(&self, value: bool) -> bool {
        self.capture_started.swap(value, Ordering::Acquire)
    }

    pub fn capture_is_started(&self) -> bool {
        self.capture_started.load(Ordering::Relaxed)
    }

    pub fn capture_is_active(&self) -> bool {
        self.capture_active.load(Ordering::Relaxed)
    }

    /// Notes that a frame arrived.
    pub fn send_got_frame(&self) {
        self.capture_got_frame.swap(true, Ordering::Acquire);
    }

    /// Takes the frame-arrived note: whether one was there, leaving none.
    pub fn recv_got_frame(&mut self) -> bool {
        self.capture_got_frame.swap(false, Ordering::Acquire)
    }

    /// Asks the watcher to stop.
    pub fn send_watcher_stop(&self) {
        self.watcher_stop_flag.store(true, Ordering::Relaxed);
    }

    /// Takes the watcher's stop request: whether there was one, leaving none.
    pub fn recv_watcher_stop(&self) -> bool {
        self.watcher_stop_flag.swap(false, Ordering::Acquire)
    }

    /// Asks the capture to stop.
    pub fn send_capture_stop(&self) {
        self.capture_stop_flag.store(true, Ordering::Relaxed);
    }

    /// Takes the capture's stop request: whether there was one, leaving none.
    pub fn recv_capture_stop(&self) -> bool {
        self.capture_stop_flag.swap(false, Ordering::Acquire)
    }
}

} // verus!
