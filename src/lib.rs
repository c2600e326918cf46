//! Animalese speech synthesis: sprite-sheet lookup, pitch and intonation
//! arithmetic, the engine that turns text into queued playback commands,
//! and the choices the playback worker and an interactive session make.

pub mod assets;
pub mod engine;
pub mod intonation;
pub mod playback;
pub mod session;
pub mod sprite;
pub mod text;
pub mod voice;

pub use assets::bundled_assets_path;
pub use engine::{Animalese, AnimaleseError, PlayRequest, SoundCommand};
pub use intonation::compute_intonation_offset;
pub use playback::{compute_pitch, plan_clip, worker_step, ClipPlan, WorkerAction};
pub use session::{pause_after, Key, KeyAction, TypingState};
pub use sprite::{letter_to_sprite_time, sfx_to_sprite_time, special_to_sprite_time, Millis};
pub use voice::{parse_voice_type, VoiceProfile, VoiceType};
