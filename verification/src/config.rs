//! The numbers a match is played with. Times are in milliseconds.

use vstd::prelude::*;

verus! {

/// Health of each player when a match begins.
pub const MAX_HEALTH: i32 = 5;

/// Faces of the roll that picks the computer's element.
pub const ELEMENT_FACES: u32 = 3;

/// Faces of the roll that picks the computer's action.
pub const ACTION_FACES: u32 = 4;

// ====== ANIMATIONS ======
/// The picture of an exchange scrolls in.
pub const ANIM_SCROLL_LEFT: u64 = 1200;

/// The picture of an exchange, or an announcement, stays.
pub const ANIM_STAY: u64 = 1500;

/// The picture of an exchange scrolls out.
pub const ANIM_SCROLL_RIGHT: u64 = 1200;

/// The screen behind a title darkens.
pub const ANIM_FADE_IN: u64 = 700;

/// The screen behind a title clears.
pub const ANIM_FADE_OUT: u64 = 1000;

/// A title grows to its size.
pub const ANIM_SCALE_UP: u64 = 1200;

/// A title shrinks to nothing.
pub const ANIM_SCALE_DOWN: u64 = 100;

/// The colour of winning or losing comes up behind a pick.
pub const ANIM_FADE_IN_COLOUR: u64 = 2000;

/// The colour of winning or losing goes behind a pick.
pub const ANIM_FADE_OUT_COLOUR: u64 = 1000;

/// One step of a figure's shake.
pub const ANIM_SHAKE: u64 = 50;

// ====== PHASES ======
/// Time allowed to choose an element or an action.
pub const COUNTDOWN_TIME: u64 = 2000;

/// Time spent to reveal the actions.
pub const REVEAL_TIME: u64 = 2000;

/// How long the title of a phase stays: it scales up and down while the
/// screen behind it fades in, waits and fades out.
pub const TITLE_TIME: u64 = ANIM_SCALE_UP + ANIM_SCALE_DOWN + ANIM_FADE_OUT;

/// How long the opening of a match takes: both words of the name scale up
/// and down in turn, then the screen fades out.
pub const ROUND_START_TIME: u64 = (ANIM_SCALE_UP + ANIM_SCALE_DOWN) * 2 + ANIM_FADE_OUT;

/// How long an element is selected: the title, then the countdown.
pub const SELECT_ELEMENT_TIME: u64 = TITLE_TIME + COUNTDOWN_TIME;

/// How long an action is selected: the title, then the countdown.
pub const SELECT_ACTION_TIME: u64 = TITLE_TIME + COUNTDOWN_TIME;

/// How long an exchange is shown: the reveal, the colours fading in and
/// out, the picture scrolling in, staying and scrolling out, the screen
/// fading out.
pub const RESOLVE_ACTION_TIME: u64 = REVEAL_TIME + ANIM_FADE_IN_COLOUR + ANIM_FADE_OUT_COLOUR
    + ANIM_SCROLL_LEFT + ANIM_STAY + ANIM_SCROLL_RIGHT + ANIM_FADE_OUT;

/// How long the announcement after an exchange stays: it scales up, stays
/// and scales down.
pub const TRANSITION_TIME: u64 = ANIM_SCALE_UP + ANIM_STAY + ANIM_SCALE_DOWN;

/// How long an exchange is shown where an announcement follows it.
pub const RESOLVE_ANNOUNCED_TIME: u64 = RESOLVE_ACTION_TIME + TRANSITION_TIME;

// ====== COMPUTER ======
/// The computer's first pick of a match comes after this time.
pub const BOT_TIME_FIRST: u32 = 500;

/// The computer waits at least this long between two picks.
pub const BOT_TIME_MIN: u32 = 500;

/// The computer waits less than this between two picks.
pub const BOT_TIME_MAX: u32 = 1500;

// ====== KEYS ======
/// Player one's key for Toilet and Water.
pub const KEY_A: u32 = 0;

/// Player one's key for Underwear and Grass.
pub const KEY_S: u32 = 1;

/// Player one's key for Hand and Fire.
pub const KEY_D: u32 = 2;

/// Player two's key for Toilet and Water.
pub const KEY_J: u32 = 3;

/// Player two's key for Underwear and Grass.
pub const KEY_K: u32 = 4;

/// Player two's key for Hand and Fire.
pub const KEY_L: u32 = 5;

} // verus!
