//! The speech engine: turns letters, names and text into play commands on
//! the playback queue, and holds the voice profile that shapes them.
//!
//! The engine owns the profile. Each change is also published to a shared
//! copy that the playback worker reads when it takes a command off the
//! queue, so a change made after a command is queued but before the worker
//! reaches it still shapes that clip.
//!
//! Methods that queue take `&mut self`: the engine keeps, as ghost state,
//! the sequence of every command it has queued and of every profile it has
//! handed to the worker, and its contracts speak of both and of the profile.

use std::sync::mpsc::{SendError, Sender};
use std::sync::{Arc, Mutex};
use vstd::prelude::*;
use crate::assets::{join_path, joined, parent_dir, sfx_sheet_path};
use crate::intonation::{
    compute_intonation_offset, effective_intonation, intonation_of_text, intonation_offset,
    letters_are_letters, letters_in, letters_of, question_rises,
};
use crate::sprite::{
    alphabet_index, is_ascii_letter, letter_to_sprite_time, sfx_index, sfx_to_sprite_time,
    special_start, special_to_sprite_time, Millis, LETTER_SLOT_MS, LONG_SLOT_MS,
};
use crate::text::{ends_with_question, trimmed_end};
use crate::voice::{default_profile, voice_file, VoiceProfile};

verus! {

/// The sending end of std's `mpsc` channel, seen only as an opaque value.
#[verifier::external_type_specification]
#[verifier::external_body]
#[verifier::reject_recursive_types(T)]
pub struct ExSender<T>(Sender<T>);

/// The error of std's `Sender::send`, seen only as an opaque value.
#[verifier::external_type_specification]
#[verifier::external_body]
#[verifier::reject_recursive_types(T)]
pub struct ExSendError<T>(SendError<T>);

/// std's `Mutex`, seen only as an opaque value.
#[verifier::external_type_specification]
#[verifier::external_body]
#[verifier::reject_recursive_types(T)]
pub struct ExMutex<T: ?Sized>(Mutex<T>);

/// Intonation of a spoken question, in thousandths.
pub const QUESTION_INTONATION: i32 = 600;

/// Intonation of an excited utterance, in thousandths.
pub const EXCITED_INTONATION: i32 = 400;

/// How much higher an excited utterance is pitched, in thousandths of a
/// semitone.
pub const EXCITED_PITCH_BOOST: i32 = 2000;

/// Intonation of a statement, in thousandths.
pub const STATEMENT_INTONATION: i32 = -300;

/// `p` with its intonation replaced.
pub open spec fn with_intonation(p: VoiceProfile, intonation: i32) -> VoiceProfile {
    VoiceProfile {
        voice_type: p.voice_type,
        pitch_shift: p.pitch_shift,
        pitch_variation: p.pitch_variation,
        volume: p.volume,
        intonation,
    }
}

/// The profile an excited utterance is played with: `p` raised by
/// `EXCITED_PITCH_BOOST` (held at the top of `i32`), with intonation
/// `EXCITED_INTONATION`.
pub open spec fn excited(p: VoiceProfile) -> VoiceProfile {
    VoiceProfile {
        voice_type: p.voice_type,
        pitch_shift: if p.pitch_shift <= i32::MAX - EXCITED_PITCH_BOOST {
            (p.pitch_shift + EXCITED_PITCH_BOOST) as i32
        } else {
            i32::MAX
        },
        pitch_variation: p.pitch_variation,
        volume: p.volume,
        intonation: EXCITED_INTONATION,
    }
}

/// Why a request was refused.
#[derive(Clone, Copy, Debug, PartialEq, Eq, Structural)]
pub enum AnimaleseError {
    /// The character is not an ASCII letter.
    InvalidUnit,
    /// No special sound or effect has this name.
    UnknownUnit,
    /// The playback worker has stopped; nothing more can be queued.
    QueueClosed,
    /// The voice directory has no parent to hold the effects sheet.
    InvalidAssetsPath,
}

/// One clip for the playback worker.
#[derive(Clone, Debug, PartialEq, Eq)]
pub struct PlayRequest {
    /// Sprite sheet to read.
    pub path: String,
    /// Where the clip starts in the sheet.
    pub start: Millis,
    /// Length of its slot.
    pub duration: Millis,
    /// A shorter length to cut the clip to, if any.
    pub max_duration: Option<Millis>,
    /// Whether the profile's pitch shift and jitter apply.
    pub apply_pitch: bool,
    /// Extra pitch from the intonation glide, in thousandths of a semitone.
    pub intonation_shift: i64,
}

/// What travels on the playback queue.
#[derive(Clone, Debug, PartialEq, Eq)]
pub enum SoundCommand {
    Play(PlayRequest),
    /// Silence everything playing or waiting to play.
    Stop,
}

/// The sprite sheet a clip comes from.
enum Sheet {
    /// The sheet of the profile's current voice.
    Voice,
    /// The shared effects sheet.
    Effects,
}

/// `c` asks to play `path` from `start` for `duration` (milliseconds).
pub open spec fn is_play(
    c: SoundCommand,
    path: Seq<char>,
    start: int,
    duration: int,
    max_duration: Option<Millis>,
    apply_pitch: bool,
    shift: int,
) -> bool {
    &&& c matches SoundCommand::Play(p)
    &&& p.path@ == path
    &&& p.start.ms == start
    &&& p.duration.ms == duration
    &&& p.max_duration == max_duration
    &&& p.apply_pitch == apply_pitch
    &&& p.intonation_shift == shift
}

/// A call that offers one command to the queue: on success the queue holds
/// one command more; otherwise it is unchanged and the error is
/// `QueueClosed`.
pub open spec fn queued_one(
    before: Seq<SoundCommand>,
    after: Seq<SoundCommand>,
    r: Result<(), AnimaleseError>,
) -> bool {
    match r {
        Ok(_) => after.len() > 0 && after == before.push(after.last()),
        Err(e) => e == AnimaleseError::QueueClosed && after == before,
    }
}

/// What `speak` leaves on the queue: after the commands already there, one
/// clip of the voice sheet `sheet` for each ASCII letter of `text` in order,
/// the letter at `k` of `n` shifted by the glide of the intonation `text` is
/// spoken with under a profile intonation of `base`. On success all of them
/// are queued; when the queue closes, those before the refused one.
pub open spec fn spoke(
    before: Seq<SoundCommand>,
    after: Seq<SoundCommand>,
    sheet: Seq<char>,
    text: Seq<char>,
    base: int,
    r: Result<(), AnimaleseError>,
) -> bool {
    let letters = letters_of(text);
    let intonation = effective_intonation(trimmed_end(text), base);
    let added = after.len() - before.len();
    &&& before.len() <= after.len()
    &&& after.subrange(0, before.len() as int) == before
    &&& added <= letters.len()
    &&& forall|k: int|
        0 <= k < added ==> is_play(
            #[trigger] after[before.len() + k],
            sheet,
            LETTER_SLOT_MS * alphabet_index(letters[k]),
            LETTER_SLOT_MS as int,
            None,
            true,
            intonation_offset(intonation, k, letters.len() as int),
        )
    &&& r is Ok <==> added == letters.len()
    &&& r is Err ==> r == Err::<(), AnimaleseError>(AnimaleseError::QueueClosed)
}

/// A question whose trimmed text ends with `?`, spoken under a level
/// profile, rises: when all its clips are queued and it has two letters or
/// more, the last clip is shifted strictly higher than the first.
pub proof fn spoken_question_rises(
    before: Seq<SoundCommand>,
    after: Seq<SoundCommand>,
    sheet: Seq<char>,
    text: Seq<char>,
    r: Result<(), AnimaleseError>,
)
    requires
        spoke(before, after, sheet, text, 0, r),
        r is Ok,
        ends_with_question(trimmed_end(text)),
        letters_of(text).len() >= 2,
    ensures
        after.last()->Play_0.intonation_shift > after[before.len() as int]->Play_0.intonation_shift,
{
    let n = letters_of(text).len() as int;
    question_rises(text);
    assert(after[before.len() + 0int] == after[before.len() as int]);
    assert(after[before.len() + (n - 1)] == after.last());
}

/// Relies on `std::sync::mpsc::Sender::send`: it never blocks, and fails
/// only once the receiving end is gone.
#[verifier::external_body]
fn send_command(tx: &Sender<SoundCommand>, command: SoundCommand) -> (r: Result<
    (),
    SendError<SoundCommand>,
>) {
    tx.send(command)
}

/// Relies on `std::sync::Mutex::lock`: while the lock is held the shared
/// profile is replaced. A poisoned lock is left as it is.
#[verifier::external_body]
fn publish_profile(shared: &Arc<Mutex<VoiceProfile>>, profile: VoiceProfile) {
    if let Ok(mut guard) = shared.lock() {
        *guard = profile;
    }
}

/// The speech engine.
pub struct Animalese {
    voice_path: String,
    sfx_path: String,
    profile: VoiceProfile,
    shared_profile: Arc<Mutex<VoiceProfile>>,
    command_tx: Sender<SoundCommand>,
    queued: Ghost<Seq<SoundCommand>>,
    published: Ghost<Seq<VoiceProfile>>,
}

impl Animalese {
    /// The profile in force.
    pub closed spec fn current_profile(&self) -> VoiceProfile {
        self.profile
    }

    /// Every command this engine has put on the queue, oldest first.
    pub closed spec fn queued(&self) -> Seq<SoundCommand> {
        self.queued@
    }

    /// Every profile this engine has handed to the playback worker, oldest
    /// first; the last is the one the worker plays the next clip with.
    pub closed spec fn published(&self) -> Seq<VoiceProfile> {
        self.published@
    }

    /// Directory of the voice sheets.
    pub closed spec fn voice_dir(&self) -> Seq<char> {
        self.voice_path@
    }

    /// Path of the effects sheet.
    pub closed spec fn sfx_file(&self) -> Seq<char> {
        self.sfx_path@
    }

    /// Path of the current voice's sheet.
    pub open spec fn voice_sheet(&self) -> Seq<char> {
        joined(self.voice_dir(), voice_file(self.current_profile().voice_type))
    }

    /// `self` reads its sheets from the same places as `other`.
    pub open spec fn same_sheets(&self, other: &Animalese) -> bool {
        self.voice_dir() == other.voice_dir() && self.sfx_file() == other.sfx_file()
    }

    /// An engine that reads voice sheets from `assets_path`, and the effects
    /// sheet from the directory that holds it, and puts its commands on
    /// `command_tx`. It starts with the default profile and publishes it to
    /// `shared_profile`, where the playback worker reads it.
    pub fn with_queue(
        assets_path: &str,
        command_tx: Sender<SoundCommand>,
        shared_profile: Arc<Mutex<VoiceProfile>>,
    ) -> (r: Result<Animalese, AnimaleseError>)
        ensures
            parent_dir(assets_path@) matches Some(p) ==> (r matches Ok(e) && e.voice_dir()
                == assets_path@ && e.sfx_file() == joined(p, "sfx.ogg"@) && e.current_profile()
                == default_profile() && e.queued() == Seq::<SoundCommand>::empty()
                && e.published() == seq![default_profile()]),
            parent_dir(assets_path@) is None ==> r == Err::<Animalese, AnimaleseError>(
                AnimaleseError::InvalidAssetsPath,
            ),
    {
        let sfx_path = match sfx_sheet_path(assets_path) {
            Some(p) => p,
            None => return Err(AnimaleseError::InvalidAssetsPath),
        };
        let profile = VoiceProfile::default();
        publish_profile(&shared_profile, profile);
        Ok(Animalese {
            voice_path: String::from_str(assets_path),
            sfx_path,
            profile,
            shared_profile,
            command_tx,
            queued: Ghost(Seq::empty()),
            published: Ghost(Seq::empty().push(profile)),
        })
    }

    /// Replaces the profile.
    pub fn set_profile(&mut self, new_profile: VoiceProfile)
        ensures
            final(self).current_profile() == new_profile,
            final(self).published() == old(self).published().push(new_profile),
            final(self).queued() == old(self).queued(),
            final(self).same_sheets(old(self)),
    {
        self.profile = new_profile;
        self.publish();
    }

    /// Hands the profile in force to the playback worker.
    fn publish(&mut self)
        ensures
            final(self).published() == old(self).published().push(old(self).current_profile()),
            final(self).current_profile() == old(self).current_profile(),
            final(self).queued() == old(self).queued(),
            final(self).same_sheets(old(self)),
    {
        publish_profile(&self.shared_profile, self.profile);
        self.published = Ghost(self.published@.push(self.profile));
    }

    /// A copy of the profile in force.
    pub fn profile(&self) -> (r: VoiceProfile)
        ensures
            r == self.current_profile(),
    {
        self.profile
    }

    fn enqueue(&mut self, command: SoundCommand) -> (r: Result<(), AnimaleseError>)
        ensures
            queued_one(old(self).queued(), final(self).queued(), r),
            r is Ok ==> final(self).queued().last() == command,
            final(self).current_profile() == old(self).current_profile(),
            final(self).same_sheets(old(self)),
            final(self).published() == old(self).published(),
    {
        let ghost sent = command;
        match send_command(&self.command_tx, command) {
            Ok(()) => {
                self.queued = Ghost(self.queued@.push(sent));
                Ok(())
            },
            Err(_) => Err(AnimaleseError::QueueClosed),
        }
    }

    fn play_sprite(
        &mut self,
        sheet: Sheet,
        start: Millis,
        duration: Millis,
        apply_pitch: bool,
        max_duration: Option<Millis>,
        intonation_shift: i64,
    ) -> (r: Result<(), AnimaleseError>)
        ensures
            queued_one(old(self).queued(), final(self).queued(), r),
            r is Ok ==> is_play(
                final(self).queued().last(),
                match sheet {
                    Sheet::Voice => old(self).voice_sheet(),
                    Sheet::Effects => old(self).sfx_file(),
                },
                start.ms as int,
                duration.ms as int,
                max_duration,
                apply_pitch,
                intonation_shift as int,
            ),
            final(self).current_profile() == old(self).current_profile(),
            final(self).same_sheets(old(self)),
            final(self).published() == old(self).published(),
    {
        let path = match sheet {
            Sheet::Voice => join_path(self.voice_path.as_str(), self.profile.voice_type.filename()),
            Sheet::Effects => self.sfx_path.clone(),
        };
        self.enqueue(
            SoundCommand::Play(
                PlayRequest { path, start, duration, max_duration, apply_pitch, intonation_shift },
            ),
        )
    }

    /// Queues the letter `c` of the current voice, cut to `max_duration`
    /// if given, shifted by `intonation_shift` thousandths of a semitone.
    fn play_letter_with_options(
        &mut self,
        c: char,
        max_duration: Option<Millis>,
        intonation_shift: i64,
    ) -> (r: Result<(), AnimaleseError>)
        ensures
            !is_ascii_letter(c) ==> r == Err::<(), AnimaleseError>(AnimaleseError::InvalidUnit)
                && final(self).queued() == old(self).queued(),
            is_ascii_letter(c) ==> queued_one(old(self).queued(), final(self).queued(), r),
            r is Ok ==> is_play(
                final(self).queued().last(),
                old(self).voice_sheet(),
                LETTER_SLOT_MS * alphabet_index(c),
                LETTER_SLOT_MS as int,
                max_duration,
                true,
                intonation_shift as int,
            ),
            final(self).current_profile() == old(self).current_profile(),
            final(self).same_sheets(old(self)),
            final(self).published() == old(self).published(),
    {
        let start = match letter_to_sprite_time(c) {
            Some(t) => t,
            None => return Err(AnimaleseError::InvalidUnit),
        };
        self.play_sprite(
            Sheet::Voice,
            start,
            Millis::from_millis(LETTER_SLOT_MS),
            true,
            max_duration,
            intonation_shift,
        )
    }

    /// Queues the letter `c` of the current voice, cut to `max_duration`
    /// if given.
    pub fn play_letter_with_duration(&mut self, c: char, max_duration: Option<Millis>) -> (r: Result<
        (),
        AnimaleseError,
    >)
        ensures
            !is_ascii_letter(c) ==> r == Err::<(), AnimaleseError>(AnimaleseError::InvalidUnit)
                && final(self).queued() == old(self).queued(),
            is_ascii_letter(c) ==> queued_one(old(self).queued(), final(self).queued(), r),
            r is Ok ==> is_play(
                final(self).queued().last(),
                old(self).voice_sheet(),
                LETTER_SLOT_MS * alphabet_index(c),
                LETTER_SLOT_MS as int,
                max_duration,
                true,
                0,
            ),
            final(self).current_profile() == old(self).current_profile(),
            final(self).same_sheets(old(self)),
            final(self).published() == old(self).published(),
    {
        self.play_letter_with_options(c, max_duration, 0)
    }

    /// Queues the whole slot of the letter `c` of the current voice.
    pub fn play_letter(&mut self, c: char) -> (r: Result<(), AnimaleseError>)
        ensures
            !is_ascii_letter(c) ==> r == Err::<(), AnimaleseError>(AnimaleseError::InvalidUnit)
                && final(self).queued() == old(self).queued(),
            is_ascii_letter(c) ==> queued_one(old(self).queued(), final(self).queued(), r),
            r is Ok ==> is_play(
                final(self).queued().last(),
                old(self).voice_sheet(),
                LETTER_SLOT_MS * alphabet_index(c),
                LETTER_SLOT_MS as int,
                None,
                true,
                0,
            ),
            final(self).current_profile() == old(self).current_profile(),
            final(self).same_sheets(old(self)),
            final(self).published() == old(self).published(),
    {
        self.play_letter_with_duration(c, None)
    }

    /// Queues a special sound (`ok`, `gwah`, `deska`) of the current voice.
    pub fn play_special(&mut self, name: &str) -> (r: Result<(), AnimaleseError>)
        ensures
            special_start(name@) is None ==> r == Err::<(), AnimaleseError>(
                AnimaleseError::UnknownUnit,
            ) && final(self).queued() == old(self).queued(),
            special_start(name@) is Some ==> queued_one(old(self).queued(), final(self).queued(), r),
            r is Ok ==> is_play(
                final(self).queued().last(),
                old(self).voice_sheet(),
                special_start(name@)->0,
                LONG_SLOT_MS as int,
                None,
                true,
                0,
            ),
            final(self).current_profile() == old(self).current_profile(),
            final(self).same_sheets(old(self)),
            final(self).published() == old(self).published(),
    {
        let start = match special_to_sprite_time(name) {
            Some(t) => t,
            None => return Err(AnimaleseError::UnknownUnit),
        };
        self.play_sprite(Sheet::Voice, start, Millis::from_millis(LONG_SLOT_MS), true, None, 0)
    }

    /// Queues a named effect from the effects sheet, at the profile's volume
    /// and without pitch change.
    pub fn play_sfx(&mut self, name: &str) -> (r: Result<(), AnimaleseError>)
        ensures
            sfx_index(name@) is None ==> r == Err::<(), AnimaleseError>(
                AnimaleseError::UnknownUnit,
            ) && final(self).queued() == old(self).queued(),
            sfx_index(name@) is Some ==> queued_one(old(self).queued(), final(self).queued(), r),
            r is Ok ==> is_play(
                final(self).queued().last(),
                old(self).sfx_file(),
                LONG_SLOT_MS * sfx_index(name@)->0,
                LONG_SLOT_MS as int,
                None,
                false,
                0,
            ),
            final(self).current_profile() == old(self).current_profile(),
            final(self).same_sheets(old(self)),
            final(self).published() == old(self).published(),
    {
        let start = match sfx_to_sprite_time(name) {
            Some(t) => t,
            None => return Err(AnimaleseError::UnknownUnit),
        };
        self.play_sprite(Sheet::Effects, start, Millis::from_millis(LONG_SLOT_MS), false, None, 0)
    }

    /// Speaks `text`: one letter clip per ASCII letter, other characters
    /// skipped, each clip shifted along the intonation glide. A text whose
    /// trimmed form ends with `?` rises by `QUESTION_RISE` when the profile's
    /// intonation is level; the profile itself is not changed. A text with
    /// no letters queues nothing and succeeds. Letters are queued without
    /// waiting between them: any pacing is the caller's.
    pub fn speak(&mut self, text: &str) -> (r: Result<(), AnimaleseError>)
        ensures
            spoke(
                old(self).queued(),
                final(self).queued(),
                old(self).voice_sheet(),
                text@,
                old(self).current_profile().intonation as int,
                r,
            ),
            letters_of(text@).len() == 0 ==> r is Ok && final(self).queued() == old(self).queued(),
            final(self).current_profile() == old(self).current_profile(),
            final(self).same_sheets(old(self)),
            final(self).published() == old(self).published(),
    {
        let intonation = intonation_of_text(text, self.profile.intonation);
        let letters = letters_in(text);
        let count = letters.len();
        let ghost before = self.queued@;
        let ghost sheet = self.voice_sheet();
        let mut i: usize = 0;
        while i < count
            invariant
                i <= count,
                count == letters@.len(),
                letters@ == letters_of(text@),
                intonation == effective_intonation(
                    trimmed_end(text@),
                    old(self).current_profile().intonation as int,
                ),
                sheet == old(self).voice_sheet(),
                before == old(self).queued(),
                self.current_profile() == old(self).current_profile(),
                self.published() == old(self).published(),
                self.same_sheets(old(self)),
                self.queued().len() == before.len() + i,
                self.queued().subrange(0, before.len() as int) == before,
                forall|k: int|
                    0 <= k < i ==> is_play(
                        #[trigger] self.queued()[before.len() + k],
                        sheet,
                        LETTER_SLOT_MS * alphabet_index(letters@[k]),
                        LETTER_SLOT_MS as int,
                        None,
                        true,
                        intonation_offset(intonation as int, k, count as int),
                    ),
            decreases count - i,
        {
            let shift = compute_intonation_offset(intonation, i, count);
            let ghost mid = self.queued();
            proof {
                letters_are_letters(text@);
            }
            match self.play_letter_with_options(letters[i], None, shift) {
                Ok(()) => {},
                Err(e) => {
                    return Err(e);
                },
            }
            assert(self.queued().subrange(0, before.len() as int) =~= before) by {
                assert(self.queued() == mid.push(self.queued().last()));
                assert(forall|k: int| 0 <= k < before.len() ==> self.queued()[k] == mid[k]);
            }
            assert forall|k: int| 0 <= k < i + 1 implies is_play(
                #[trigger] self.queued()[before.len() + k],
                sheet,
                LETTER_SLOT_MS * alphabet_index(letters@[k]),
                LETTER_SLOT_MS as int,
                None,
                true,
                intonation_offset(intonation as int, k, count as int),
            ) by {
                assert(self.queued() == mid.push(self.queued().last()));
                if k < i {
                    assert(self.queued()[before.len() + k] == mid[before.len() + k]);
                }
            }
            i = i + 1;
        }
        Ok(())
    }

    /// Speaks `text` with a rising intonation of 0.6, then restores the
    /// profile's intonation, whatever `speak` reported.
    pub fn speak_question(&mut self, text: &str) -> (r: Result<(), AnimaleseError>)
        ensures
            spoke(old(self).queued(), final(self).queued(), old(self).voice_sheet(), text@, 600, r),
            final(self).published() == old(self).published().push(
                with_intonation(old(self).current_profile(), QUESTION_INTONATION),
            ).push(old(self).current_profile()),
            final(self).current_profile() == old(self).current_profile(),
            final(self).same_sheets(old(self)),
    {
        let original = self.profile.intonation;
        self.profile.intonation = QUESTION_INTONATION;
        self.publish();
        let result = self.speak(text);
        self.profile.intonation = original;
        self.publish();
        result
    }

    /// Speaks `text` two semitones higher with a rising intonation of 0.4,
    /// then restores the profile's pitch shift and intonation, whatever
    /// `speak` reported.
    pub fn speak_excited(&mut self, text: &str) -> (r: Result<(), AnimaleseError>)
        ensures
            spoke(old(self).queued(), final(self).queued(), old(self).voice_sheet(), text@, 400, r),
            final(self).published() == old(self).published().push(
                excited(old(self).current_profile()),
            ).push(old(self).current_profile()),
            final(self).current_profile() == old(self).current_profile(),
            final(self).same_sheets(old(self)),
    {
        let original_pitch = self.profile.pitch_shift;
        let original_intonation = self.profile.intonation;
        self.profile.pitch_shift = if original_pitch <= i32::MAX - EXCITED_PITCH_BOOST {
            original_pitch + EXCITED_PITCH_BOOST
        } else {
            i32::MAX
        };
        self.profile.intonation = EXCITED_INTONATION;
        self.publish();
        let result = self.speak(text);
        self.profile.pitch_shift = original_pitch;
        self.profile.intonation = original_intonation;
        self.publish();
        result
    }

    /// Speaks `text` with a falling intonation of -0.3, then restores the
    /// profile's intonation, whatever `speak` reported.
    pub fn speak_statement(&mut self, text: &str) -> (r: Result<(), AnimaleseError>)
        ensures
            spoke(old(self).queued(), final(self).queued(), old(self).voice_sheet(), text@, -300, r),
            final(self).published() == old(self).published().push(
                with_intonation(old(self).current_profile(), STATEMENT_INTONATION),
            ).push(old(self).current_profile()),
            final(self).current_profile() == old(self).current_profile(),
            final(self).same_sheets(old(self)),
    {
        let original = self.profile.intonation;
        self.profile.intonation = STATEMENT_INTONATION;
        self.publish();
        let result = self.speak(text);
        self.profile.intonation = original;
        self.publish();
        result
    }

    /// Asks the worker to silence everything playing or waiting. Whether
    /// anything was playing is not reported; once the worker has stopped
    /// there is nothing to silence and the queue is left as it was.
    pub fn stop(&mut self)
        ensures
            final(self).queued() == old(self).queued() || final(self).queued() == old(
                self,
            ).queued().push(SoundCommand::Stop),
            final(self).current_profile() == old(self).current_profile(),
            final(self).same_sheets(old(self)),
            final(self).published() == old(self).published(),
    {
        let _ = self.enqueue(SoundCommand::Stop);
    }
}

} // verus!
