use vstd::prelude::*;

verus! {

/// One piece of outside work in shutting the engine down.
#[derive(Debug, Clone, Copy, PartialEq, Eq, Structural)]
pub enum StopStep {
    /// Pause the capture stream and let it go.
    PauseCapture,
    /// Pause the playback stream and let it go.
    PausePlayback,
    /// Wait for the processing thread to finish.
    JoinProcessor,
}

/// What a running engine still holds: whether its processing loop is told to
/// keep running, and which of its capture stream, playback stream and
/// processing thread it has not let go yet.
pub struct EngineHandles {
    running: bool,
    capture: bool,
    playback: bool,
    processor: bool,
}

/// The abstract state of the handles: (running, capture held, playback held,
/// processor held).
pub struct HandlesView {
    pub running: bool,
    pub capture: bool,
    pub playback: bool,
    pub processor: bool,
}

impl View for EngineHandles {
    type V = HandlesView;

    closed spec fn view(&self) -> HandlesView {
        HandlesView {
            running: self.running,
            capture: self.capture,
            playback: self.playback,
            processor: self.processor,
        }
    }
}

/// The step that comes next in a shutdown, and the state after it: first the
/// capture stream, then the playback stream, then the processing thread, each
/// only while it is still held; `None` once nothing is held.
pub open spec fn spec_next_step(h: HandlesView) -> (Option<StopStep>, HandlesView) {
    if h.capture {
        (Some(StopStep::PauseCapture), HandlesView { capture: false, ..h })
    } else if h.playback {
        (Some(StopStep::PausePlayback), HandlesView { playback: false, ..h })
    } else if h.processor {
        (Some(StopStep::JoinProcessor), HandlesView { processor: false, ..h })
    } else {
        (None, h)
    }
}

/// Whether the engine holds nothing any more.
pub open spec fn released(h: HandlesView) -> bool {
    !h.capture && !h.playback && !h.processor
}

impl EngineHandles {
    /// The handles of an engine that has just started: running, with both
    /// streams and the processing thread held.
    pub fn started() -> (h: Self)
        ensures
            h@ == (HandlesView { running: true, capture: true, playback: true, processor: true }),
    {
        EngineHandles { running: true, capture: true, playback: true, processor: true }
    }

    /// Whether the processing loop is told to keep running.
    pub fn is_running(&self) -> (r: bool)
        ensures
            r == self@.running,
    {
        self.running
    }

    /// Tells the processing loop to stop; nothing is let go yet.
    pub fn begin_stop(&mut self)
        ensures
            final(self)@ == (HandlesView { running: false, ..old(self)@ }),
    {
        self.running = false;
    }

    /// Takes the next step of a shutdown and marks its resource as let go.
    /// The resource is let go before the step is carried out, so where the
    /// step fails, a later shutdown does not try it again.
    pub fn next_stop_step(&mut self) -> (step: Option<StopStep>)
        ensures
            (step, final(self)@) == spec_next_step(old(self)@),
    {
        if self.capture {
            self.capture = false;
            Some(StopStep::PauseCapture)
        } else if self.playback {
            self.playback = false;
            Some(StopStep::PausePlayback)
        } else if self.processor {
            self.processor = false;
            Some(StopStep::JoinProcessor)
        } else {
            None
        }
    }
}

/// A shutdown ends: after at most three steps nothing is held, each resource
/// is let go at most once (a step that has been returned is never returned
/// again), and once nothing is held a further shutdown does nothing, so
/// stopping an engine twice is the same as stopping it once. The running flag
/// is never set again.
pub proof fn lemma_shutdown_idempotent(h: HandlesView)
    ensures
        ({
            let (s1, h1) = spec_next_step(h);
            let (s2, h2) = spec_next_step(h1);
            let (s3, h3) = spec_next_step(h2);
            let (s4, h4) = spec_next_step(h3);
            &&& released(h3)
            &&& s4 is None && h4 == h3
            &&& (s1 is Some && s2 is Some ==> s1 != s2)
            &&& (s2 is Some && s3 is Some ==> s2 != s3)
            &&& (s1 is Some && s3 is Some ==> s1 != s3)
            &&& h3.running == h.running
        }),
        released(h) ==> spec_next_step(h) == (None::<StopStep>, h),
{
}

/// Each step lets go of exactly its own resource and nothing else, and the
/// steps come in a fixed order: the capture stream is paused first while it is
/// held, the playback stream only once capture has been let go, and the
/// processing thread is joined only after both streams have been let go. A
/// step is returned exactly when something is still held, and taking a step
/// never changes the running flag.
pub proof fn lemma_shutdown_order(h: HandlesView)
    ensures
        ({
            let (step, after) = spec_next_step(h);
            &&& after.running == h.running
            &&& (step is None <==> released(h))
            &&& (step is None ==> after == h)
            &&& (h.capture ==> step == Some(StopStep::PauseCapture))
            &&& (step == Some(StopStep::PauseCapture) ==> h.capture && !after.capture
                && after.playback == h.playback && after.processor == h.processor)
            &&& (step == Some(StopStep::PausePlayback) ==> !h.capture && h.playback && !after.playback
                && after.capture == h.capture && after.processor == h.processor)
            &&& (step == Some(StopStep::JoinProcessor) ==> !h.capture && !h.playback && h.processor
                && !after.processor && after.capture == h.capture && after.playback == h.playback)
        }),
{
}

} // verus!
