//! The engine's shared state machine: the hand-off between the loader,
//! the realtime renderer and the UI commands.
//!
//! The application keeps one `SharedState` under a mutex. The loader
//! thread completes reloads under the lock; the renderer's audio callback
//! only ever *tries* the lock and substitutes silence on contention; UI
//! commands store controls under the same lock. The decisions those three
//! parties take are the verified functions here; the lock, the threads and
//! the decoder calls stay in the application layer.
//!
//! Repeat semantics: repeat is implemented by the decoder. When the repeat
//! flag is set, applying the controls hands the decoder an infinite repeat
//! count (`repeat_count_for`), so a looping decoder keeps yielding frames
//! instead of reporting a zero-frame read. The engine leaves `Loaded`
//! exactly on a zero-frame read (`note_read`), which a looping decoder
//! does not produce.
//!
//! A zero-frame read also ends the callback's work for this invocation:
//! the loader needs the very lock the callback is holding, so a retry
//! within the same invocation could only find the slot still empty. The
//! callback returns silence for the tail of the track and the next
//! invocation plays the next one — a one-buffer track-advance latency.

use crate::control::ModuleControl;
use crate::player::ModuleInfo;
use vstd::math::min;
use vstd::prelude::*;

verus! {

/// Interleaved stereo: two samples per frame.
pub const CHANNELS: usize = 2;

/// Failure to open a module with the decoder.
#[derive(Debug)]
pub struct ModuleCreationError;

impl ModuleCreationError {
    /// The diagnostic shown for this failure.
    pub fn message(&self) -> (r: &'static str)
        ensures
            r@ == "the module decoder failed to open the module"@,
    {
        "the module decoder failed to open the module"
    }
}

/// What occupies the shared session slot.
pub enum CurrentModuleState<S> {
    /// Nothing loaded: the loader should pull the next session.
    NotLoaded,
    /// A session is playing.
    Loaded { session: S },
    /// The playlist is exhausted; the output stream should pause itself.
    Exhausted,
}

/// One-shot notifications from the loader to the UI, delivered in order.
pub enum BackendEvent {
    StartedPlaying { module_info: ModuleInfo },
    PlayListExhausted,
}

/// The state all three parties share under one lock: the session slot and
/// the current control record, bundled so a reader never pairs a session
/// with a stale control set.
pub struct SharedState<S> {
    pub module: CurrentModuleState<S>,
    pub control: ModuleControl,
    pub sample_rate: usize,
}

/// Storing a new control record changes nothing else.
pub open spec fn spec_update_control<S>(st: SharedState<S>, c: ModuleControl) -> SharedState<S> {
    SharedState { control: c, ..st }
}

/// The control record a reload applies to the session it loads: exactly
/// the stored one.
pub open spec fn spec_reload_control<S>(st: SharedState<S>) -> ModuleControl {
    st.control
}

/// What the renderer's bookkeeping does to the state: a zero-frame read is
/// the natural end of the module and empties the slot; any progress leaves
/// the state untouched.
pub open spec fn spec_note_read<S>(st: SharedState<S>, frames: usize) -> SharedState<S> {
    if frames == 0 {
        SharedState { module: CurrentModuleState::NotLoaded, ..st }
    } else {
        st
    }
}

impl<S> SharedState<S> {
    pub open spec fn wf(self) -> bool {
        self.control.wf()
    }

    pub fn new(sample_rate: usize, control: ModuleControl) -> (r: SharedState<S>)
        requires
            control.wf(),
        ensures
            r.module is NotLoaded,
            r.control == control,
            r.sample_rate == sample_rate,
            r.wf(),
    {
        SharedState { module: CurrentModuleState::NotLoaded, control, sample_rate }
    }

    pub fn sample_rate(&self) -> (r: usize)
        ensures
            r == self.sample_rate,
    {
        self.sample_rate
    }

    /// Store a new control record. Reports whether a session is loaded, in
    /// which case the caller applies the record to it immediately, under
    /// the same lock — so no session ever plays under a control set older
    /// than the last stored one.
    pub fn update_control(&mut self, control: ModuleControl) -> (apply: bool)
        requires
            old(self).wf(),
            control.wf(),
        ensures
            *final(self) == spec_update_control(*old(self), control),
            apply == (old(self).module is Loaded),
            final(self).wf(),
    {
        self.control = control;
        match self.module {
            CurrentModuleState::Loaded { .. } => true,
            _ => false,
        }
    }

    /// Finish a reload with what the playlist source yielded. A session
    /// fills the slot and announces itself with its metadata, and the
    /// caller must apply the returned control record (the stored one) to
    /// it; no session marks the playlist exhausted. The discarded previous
    /// session leaves with the overwritten slot.
    pub fn complete_reload(&mut self, polled: Option<(S, ModuleInfo)>) -> (r: (
        BackendEvent,
        Option<ModuleControl>,
    ))
        requires
            old(self).wf(),
        ensures
            final(self).control == old(self).control,
            final(self).sample_rate == old(self).sample_rate,
            final(self).wf(),
            match polled {
                Some(p) => {
                    &&& final(self).module matches CurrentModuleState::Loaded { session }
                        && session == p.0
                    &&& r.0 matches BackendEvent::StartedPlaying { module_info } && module_info
                        == p.1
                    &&& r.1 == Some(spec_reload_control(*old(self)))
                },
                None => {
                    &&& final(self).module is Exhausted
                    &&& r.0 is PlayListExhausted
                    &&& r.1 is None
                },
            },
    {
        match polled {
            Some((session, module_info)) => {
                let control = self.control;
                self.module = CurrentModuleState::Loaded { session };
                (BackendEvent::StartedPlaying { module_info }, Some(control))
            },
            None => {
                self.module = CurrentModuleState::Exhausted;
                (BackendEvent::PlayListExhausted, None)
            },
        }
    }

    /// The renderer's bookkeeping after asking the loaded session for
    /// frames. Zero frames read is the natural end of the module: the slot
    /// goes back to `NotLoaded` and the caller wakes the loader; otherwise
    /// the session stays loaded and the caller publishes the fresh
    /// position snapshot.
    pub fn note_read(&mut self, frames: usize) -> (track_ended: bool)
        requires
            old(self).wf(),
            old(self).module is Loaded,
        ensures
            *final(self) == spec_note_read(*old(self), frames),
            track_ended == (frames == 0),
            final(self).wf(),
    {
        if frames == 0 {
            self.module = CurrentModuleState::NotLoaded;
            true
        } else {
            false
        }
    }
}

/// No lost update, no reordering: an `UpdateControl` followed by a
/// `Reload` loads the next session under exactly the control record that
/// update stored. Both operations run under the same lock on the same
/// state, the update overwrites the stored record, and the reload applies
/// the stored record and nothing else.
pub proof fn lemma_reload_applies_latest_control<S>(st: SharedState<S>, c: ModuleControl)
    ensures
        spec_reload_control(spec_update_control(st, c)) == c,
{
}

/// Repeat semantics: with the repeat flag set the decoder loops internally
/// and keeps yielding frames; the engine tears a session down only on a
/// zero-frame read, so a looping session is never torn down.
pub proof fn lemma_repeat_keeps_session<S>(st: SharedState<S>, frames: usize)
    requires
        st.module is Loaded,
        frames > 0,
    ensures
        spec_note_read(st, frames) == st,
        spec_note_read(st, frames).module is Loaded,
{
}

/// The repeat count handed to the decoder when controls are applied:
/// infinite looping when the repeat flag is set, stop at the natural end
/// otherwise.
pub fn repeat_count_for(control: &ModuleControl) -> (r: i32)
    ensures
        control.repeat ==> r == -1,
        !control.repeat ==> r == 0,
{
    if control.repeat {
        -1
    } else {
        0
    }
}

/// What one renderer pass found in the shared slot.
pub enum ModuleReadResult {
    /// The lock was held elsewhere: render silence rather than wait.
    WouldBlock,
    /// Nothing loaded yet: render silence; the loader is on its way.
    NotLoaded,
    /// The playlist is over: ask the output stream to pause itself.
    Exhausted,
    /// The session rendered `frames` frames in `elapsed_ns` nanoseconds.
    Read { frames: usize, elapsed_ns: u64 },
}

/// How many interleaved samples at the front of the buffer hold rendered
/// audio; everything after them must be zeroed before the callback
/// returns.
pub open spec fn spec_samples_to_keep(result: ModuleReadResult) -> int {
    match result {
        ModuleReadResult::Read { frames, .. } => frames * CHANNELS,
        _ => 0,
    }
}

pub fn samples_to_keep(result: &ModuleReadResult) -> (n: usize)
    requires
        result matches ModuleReadResult::Read { frames, .. } ==> frames <= usize::MAX / CHANNELS,
    ensures
        n == spec_samples_to_keep(*result),
{
    match result {
        ModuleReadResult::Read { frames, .. } => *frames * CHANNELS,
        _ => 0,
    }
}

/// The renderer invoked while the lock is held elsewhere keeps nothing:
/// the whole buffer is zeroed and the callback simply returns — it never
/// waits for the lock and never fails.
pub proof fn lemma_contention_yields_silence()
    ensures
        spec_samples_to_keep(ModuleReadResult::WouldBlock) == 0,
{
}

/// Telemetry of the most recent callback. Times are nanosecond counts and
/// the decoder load is in parts per million of realtime, so the record
/// stays in integers end to end.
#[derive(Clone, Copy, PartialEq, Eq, Structural)]
pub struct DecodeStatus {
    pub buffer_samples: usize,
    pub decode_time_ns: u64,
    pub cpu_util_ppm: u64,
}

impl Default for DecodeStatus {
    fn default() -> (r: DecodeStatus)
        ensures
            r == (DecodeStatus { buffer_samples: 0, decode_time_ns: 0, cpu_util_ppm: 0 }),
    {
        DecodeStatus { buffer_samples: 0, decode_time_ns: 0, cpu_util_ppm: 0 }
    }
}

/// The decoder load of one callback, in parts per million of realtime:
/// `elapsed_ns * sample_rate / (frames * 1000)`, computed from nanosecond
/// counts in a single division so no microsecond truncation skews it.
/// Zero frames count as zero load; the result saturates at `u64::MAX`.
pub open spec fn spec_cpu_util_ppm(elapsed_ns: u64, sample_rate: usize, frames: usize) -> int {
    if frames == 0 {
        0
    } else {
        min((elapsed_ns * sample_rate) / (frames * 1000), u64::MAX as int)
    }
}

pub fn compute_decode_status(
    buffer_samples: usize,
    frames: usize,
    elapsed_ns: u64,
    sample_rate: usize,
) -> (r: DecodeStatus)
    ensures
        r.buffer_samples == buffer_samples,
        r.decode_time_ns == elapsed_ns,
        r.cpu_util_ppm == spec_cpu_util_ppm(elapsed_ns, sample_rate, frames),
{
    let cpu_util_ppm: u64 = if frames == 0 {
        0
    } else {
        proof {
            let m64 = 0x1_0000_0000_0000_0000int;
            assert(elapsed_ns * sample_rate < m64 * m64) by (nonlinear_arith)
                requires
                    m64 == 0x1_0000_0000_0000_0000int,
                    0 <= elapsed_ns < m64,
                    0 <= sample_rate < m64,
            ;
            assert(frames * 1000 < m64 * 1024) by (nonlinear_arith)
                requires
                    m64 == 0x1_0000_0000_0000_0000int,
                    0 <= frames < m64,
            ;
        }
        let num: u128 = elapsed_ns as u128 * sample_rate as u128;
        let den: u128 = frames as u128 * 1000u128;
        let q: u128 = num / den;
        if q > u64::MAX as u128 {
            u64::MAX
        } else {
            q as u64
        }
    };
    DecodeStatus { buffer_samples, decode_time_ns: elapsed_ns, cpu_util_ppm }
}

/// Fold one backend notification into the UI's record of what is playing:
/// a started session replaces it, an exhausted playlist clears it.
pub fn apply_backend_event(current: &mut Option<ModuleInfo>, ev: BackendEvent)
    ensures
        match ev {
            BackendEvent::StartedPlaying { module_info } => *final(current) == Some(module_info),
            BackendEvent::PlayListExhausted => (*final(current)) is None,
        },
{
    match ev {
        BackendEvent::StartedPlaying { module_info } => {
            *current = Some(module_info);
        },
        BackendEvent::PlayListExhausted => {
            *current = None;
        },
    }
}

} // verus!
