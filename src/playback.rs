//! What the playback worker does with each command it takes off the queue.
//! The worker itself decodes and plays; the choices it makes are here.

use rand::Rng;
use vstd::prelude::*;
use crate::engine::{PlayRequest, SoundCommand};
use crate::intonation::div_toward_zero;
use crate::sprite::Millis;
use crate::voice::VoiceProfile;

verus! {

/// Bound of the random jitter factor, in thousandths: it lies in
/// `-1000..=1000`, that is between -1 and 1.
pub const JITTER_SCALE: i32 = 1000;

/// Length of the fade-in that keeps a clip from clicking, in milliseconds.
pub const FADE_IN_MS: u64 = 5;

/// How a clip is to be played.
#[derive(Clone, Debug, PartialEq, Eq)]
pub struct ClipPlan {
    /// Sprite sheet to read.
    pub path: String,
    /// Where the clip starts in the sheet.
    pub start: Millis,
    /// How much of the sheet to play from there.
    pub length: Millis,
    /// Pitch shift in thousandths of a semitone; `None` keeps the recorded
    /// pitch.
    pub pitch: Option<i64>,
    /// Amplitude multiplier, in thousandths.
    pub volume: i32,
    /// Fade-in at the start of the clip.
    pub fade_in: Millis,
}

/// What the worker does next.
#[derive(Clone, Debug, PartialEq, Eq)]
pub enum WorkerAction {
    /// Decode the clip and hand it to the audio sink.
    Play(ClipPlan),
    /// Silence the sink: drop what plays and what waits.
    Silence,
}

/// Length of a clip: its slot, or the cut if that is shorter.
pub open spec fn clip_length(duration: Millis, max_duration: Option<Millis>) -> int {
    match max_duration {
        Some(m) => if m.ms < duration.ms {
            m.ms as int
        } else {
            duration.ms as int
        },
        None => duration.ms as int,
    }
}

/// `x` held to the range of `i64`.
pub open spec fn clamp_i64(x: int) -> int {
    if x < i64::MIN {
        i64::MIN as int
    } else if x > i64::MAX {
        i64::MAX as int
    } else {
        x
    }
}

/// Pitch of a clip in thousandths of a semitone: the profile's shift, plus
/// the jitter factor (thousandths, between -1 and 1) times the profile's
/// variation, plus the intonation shift.
pub open spec fn clip_pitch(profile: VoiceProfile, jitter: int, intonation_shift: int) -> int {
    clamp_i64(
        profile.pitch_shift + div_toward_zero(jitter * profile.pitch_variation, JITTER_SCALE as int)
            + intonation_shift,
    )
}

/// `plan` plays `request` under `profile` with the jitter factor `jitter`.
pub open spec fn plans(plan: ClipPlan, request: PlayRequest, profile: VoiceProfile, jitter: int) -> bool {
    &&& plan.path@ == request.path@
    &&& plan.start == request.start
    &&& plan.length.ms == clip_length(request.duration, request.max_duration)
    &&& plan.pitch == if request.apply_pitch {
        Some(clip_pitch(profile, jitter, request.intonation_shift as int) as i64)
    } else {
        None::<i64>
    }
    &&& plan.volume == profile.volume
    &&& plan.fade_in.ms == FADE_IN_MS
}

/// Relies on `rand::thread_rng` and `Rng::gen_range`: a value drawn from the
/// inclusive range `-JITTER_SCALE..=JITTER_SCALE`, which is not empty.
#[verifier::external_body]
fn draw_jitter() -> (r: i32)
    ensures
        -JITTER_SCALE <= r <= JITTER_SCALE,
{
    rand::thread_rng().gen_range(-JITTER_SCALE..=JITTER_SCALE)
}

/// Pitch of a clip under `profile`, for a jitter factor in thousandths.
pub fn compute_pitch(profile: &VoiceProfile, jitter: i32, intonation_shift: i64) -> (r: i64)
    requires
        -JITTER_SCALE <= jitter <= JITTER_SCALE,
    ensures
        r == clip_pitch(*profile, jitter as int, intonation_shift as int),
{
    let variation: i64 = profile.pitch_variation as i64;
    assert(-1000 * 0x8000_0000 <= jitter * variation <= 1000 * 0x8000_0000) by (nonlinear_arith)
        requires
            -1000 <= jitter <= 1000,
            -0x8000_0000 <= variation < 0x8000_0000,
    ;
    let product: i64 = jitter as i64 * variation;
    let scale: i64 = JITTER_SCALE as i64;
    let spread: i64 = if product >= 0 {
        product / scale
    } else {
        -((-product) / scale)
    };
    let total: i128 = profile.pitch_shift as i128 + spread as i128 + intonation_shift as i128;
    if total < i64::MIN as i128 {
        i64::MIN
    } else if total > i64::MAX as i128 {
        i64::MAX
    } else {
        total as i64
    }
}

/// Length of a clip: its slot, or the cut if that is shorter.
pub fn compute_clip_length(duration: Millis, max_duration: Option<Millis>) -> (r: Millis)
    ensures
        r.ms == clip_length(duration, max_duration),
{
    match max_duration {
        Some(m) => if m.ms < duration.ms {
            m
        } else {
            duration
        },
        None => duration,
    }
}

/// How to play `request` under `profile` with the jitter factor `jitter`.
pub fn plan_clip(request: PlayRequest, profile: &VoiceProfile, jitter: i32) -> (r: ClipPlan)
    requires
        -JITTER_SCALE <= jitter <= JITTER_SCALE,
    ensures
        plans(r, request, *profile, jitter as int),
{
    let pitch = if request.apply_pitch {
        Some(compute_pitch(profile, jitter, request.intonation_shift))
    } else {
        None
    };
    ClipPlan {
        length: compute_clip_length(request.duration, request.max_duration),
        start: request.start,
        path: request.path,
        pitch,
        volume: profile.volume,
        fade_in: Millis::from_millis(FADE_IN_MS),
    }
}

/// The worker's response to `command`, under the profile as it stands when
/// the command is taken off the queue. A clip with pitch gets a fresh random
/// jitter.
pub fn worker_step(command: SoundCommand, profile: &VoiceProfile) -> (r: WorkerAction)
    ensures
        command is Stop ==> r is Silence,
        command matches SoundCommand::Play(request) ==> (r matches WorkerAction::Play(plan)
            && exists|jitter: int|
            -JITTER_SCALE <= jitter <= JITTER_SCALE && plans(plan, request, *profile, jitter)),
{
    match command {
        SoundCommand::Play(request) => {
            let jitter = if request.apply_pitch {
                draw_jitter()
            } else {
                0
            };
            let plan = plan_clip(request, profile, jitter);
            assert(plans(plan, request, *profile, jitter as int));
            WorkerAction::Play(plan)
        },
        SoundCommand::Stop => WorkerAction::Silence,
    }
}

} // verus!
