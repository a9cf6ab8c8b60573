use vstd::prelude::*;
use crate::format::{AudioFormat, StreamKey};
use crate::levels::{GainLevel, VolumeLevel};
use crate::slots::{stream_of, InputBinding, InputSlot, OutputSlot};

verus! {

/// Why a captured buffer was dropped without being played.
#[derive(Clone, Copy, Debug, PartialEq, Eq, Structural)]
pub enum DiscardReason {
    /// No sink is installed.
    NoOutput,
    /// No capture stream is bound.
    NoInput,
    /// The buffer comes from a stream other than the bound one.
    StaleStream,
}

/// What the run loop does with one captured buffer: drop it, or decode it
/// with the bound format and run it through gain, clipping and volume.
#[derive(Clone, Copy, Debug, PartialEq, Eq, Structural)]
pub enum Route {
    Discard(DiscardReason),
    Process { format: AudioFormat, gain: GainLevel, volume: VolumeLevel },
}

/// The routing rule for a buffer that arrived from stream `origin`.
pub open spec fn route_spec(
    output_bound: bool,
    input: Option<InputBinding>,
    origin: StreamKey,
    gain: GainLevel,
    volume: VolumeLevel,
) -> Route {
    if !output_bound {
        Route::Discard(DiscardReason::NoOutput)
    } else {
        match input {
            None => Route::Discard(DiscardReason::NoInput),
            Some(b) => if b.stream != origin {
                Route::Discard(DiscardReason::StaleStream)
            } else {
                Route::Process { format: b.format, gain, volume }
            },
        }
    }
}

/// Decides the fate of a buffer from stream `origin`, given whether a sink
/// is installed, the current input binding, and the levels read for this
/// pass.
pub fn route_buffer(
    output_bound: bool,
    input: Option<InputBinding>,
    origin: StreamKey,
    gain: GainLevel,
    volume: VolumeLevel,
) -> (r: Route)
    ensures
        r == route_spec(output_bound, input, origin, gain, volume),
{
    if !output_bound {
        return Route::Discard(DiscardReason::NoOutput);
    }
    match input {
        None => Route::Discard(DiscardReason::NoInput),
        Some(b) => {
            if b.stream.0 != origin.0 {
                Route::Discard(DiscardReason::StaleStream)
            } else {
                Route::Process { format: b.format, gain, volume }
            }
        },
    }
}

/// Routes a buffer against the two slots as they stand.
pub fn route_from_slots<T>(
    input: &InputSlot,
    output: &OutputSlot<T>,
    origin: StreamKey,
    gain: GainLevel,
    volume: VolumeLevel,
) -> (r: Route)
    ensures
        r == route_spec(output@ is Some, input@, origin, gain, volume),
{
    route_buffer(output.is_bound(), input.current(), origin, gain, volume)
}

/// What to do once the platform's run loop has returned.
#[derive(Clone, Copy, Debug, PartialEq, Eq, Structural)]
pub enum ExitAction {
    /// End the run loop's thread quietly.
    Finish,
    /// Re-raise the failure: processing cannot resume.
    Escalate,
}

/// An abnormal end of the run loop is fatal unless the player is already
/// being torn down.
pub fn on_run_loop_exit(dropped: bool, abnormal: bool) -> (r: ExitAction)
    ensures
        r == (if abnormal && !dropped { ExitAction::Escalate } else { ExitAction::Finish }),
{
    if dropped {
        ExitAction::Finish
    } else if abnormal {
        ExitAction::Escalate
    } else {
        ExitAction::Finish
    }
}

/// A slot just bound to `binding` (see `InputSlot::bind`) drops every
/// buffer from any other stream, in particular one still in flight from the
/// stream that `binding` replaced; such a buffer never reaches a sink.
pub proof fn stale_buffer_is_dropped(
    binding: InputBinding,
    origin: StreamKey,
    output_bound: bool,
    gain: GainLevel,
    volume: VolumeLevel,
)
    requires
        binding.stream != origin,
    ensures
        route_spec(output_bound, Some(binding), origin, gain, volume) is Discard,
        output_bound ==> route_spec(output_bound, Some(binding), origin, gain, volume)
            == Route::Discard(DiscardReason::StaleStream),
{
}

/// After `clear` on both slots no buffer from any stream is played, and a
/// later `bind` hands nothing back for teardown, as on a fresh slot.
pub proof fn cleared_slots_are_fresh<T>(
    input: InputSlot,
    output: OutputSlot<T>,
    origin: StreamKey,
    gain: GainLevel,
    volume: VolumeLevel,
)
    requires
        input@ == None::<InputBinding>,
        output@ == None::<T>,
    ensures
        route_spec(output@ is Some, input@, origin, gain, volume) is Discard,
        stream_of(input@) == None::<StreamKey>,
{
}

} // verus!
