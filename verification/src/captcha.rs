//! The captcha challenges that gate the robot: a pool of generated
//! image-and-answer challenges, and the answer check that starts the robot
//! when a challenge is solved.

use vstd::prelude::*;

verus! {

use crate::digging::DiggingModel;
use crate::digging::DiggingStatus;
use crate::digging::RobotStatus;
use crate::digging::ROBOT_TIME_MILLIS;

/// How many challenges the pool holds.
pub const CAPTCHA_COUNT: u32 = 5;

/// Width of a challenge image, in pixels.
pub const CAPTCHA_WIDTH: u32 = 220;

/// Height of a challenge image, in pixels.
pub const CAPTCHA_HEIGHT: u32 = 120;

/// How many random characters a challenge asks for.
pub const CAPTCHA_CHARS: u32 = 5;

/// One challenge: the expected answer and the PNG bytes of its image.
pub struct CaptchaData {
    pub answer: String,
    pub image: Vec<u8>,
}

/// Relies on the captcha crate's builder (`Captcha::new`, `add_chars`,
/// `view`, `as_tuple`): a fresh challenge of `chars` random characters
/// rendered into a PNG of the given size, or `None` when encoding fails.
/// `add_chars` adds one character per request: every character the default
/// font offers carries a decodable glyph, so each request pushes exactly
/// one, and the answer holds exactly `chars` characters. The configuration
/// is pinned to the one the crate's own documentation exercises.
#[verifier::external_body]
fn gen_captcha_raw(chars: u32, width: u32, height: u32) -> (r: Option<(String, Vec<u8>)>)
    requires
        chars == CAPTCHA_CHARS,
        width == CAPTCHA_WIDTH,
        height == CAPTCHA_HEIGHT,
    ensures
        r matches Some(t) ==> t.0@.len() == chars,
{
    captcha::Captcha::new().add_chars(chars).view(width, height).as_tuple()
}

/// Generates the pool of challenges consumed by the robot unlock flow, or
/// `None` when any single generation fails.
pub fn get_captchas() -> (r: Option<Vec<CaptchaData>>)
    ensures
        r matches Some(v) ==> v@.len() == CAPTCHA_COUNT && forall|i: int|
            0 <= i < v@.len() ==> (#[trigger] v@[i].answer)@.len() == CAPTCHA_CHARS,
{
    let mut out: Vec<CaptchaData> = Vec::new();
    let mut n: u32 = 0;
    while n < CAPTCHA_COUNT
        invariant
            n <= CAPTCHA_COUNT,
            out@.len() == n,
            forall|i: int| 0 <= i < out@.len() ==> (#[trigger] out@[i].answer)@.len() == CAPTCHA_CHARS,
        decreases CAPTCHA_COUNT - n,
    {
        match gen_captcha_raw(CAPTCHA_CHARS, CAPTCHA_WIDTH, CAPTCHA_HEIGHT) {
            Some(t) => {
                let (answer, image) = t;
                out.push(CaptchaData { answer, image });
            },
            None => {
                return None;
            },
        }
        n = n + 1;
    }
    Some(out)
}

/// Whether the typed answer matches the challenge's answer exactly.
pub fn check_answer(challenge: &CaptchaData, answer: &String) -> (r: bool)
    ensures
        r == (challenge.answer@ == answer@),
{
    challenge.answer == *answer
}

/// Checks a typed answer against a challenge; a match starts the robot's
/// timed run, a mismatch changes nothing.
pub fn try_solve_captcha(
    digging: &mut DiggingStatus,
    challenge: &CaptchaData,
    answer: &String,
) -> (r: bool)
    requires
        old(digging)@.inv(),
    ensures
        final(digging)@.inv(),
        r == (challenge.answer@ == answer@),
        r ==> final(digging)@ == (DiggingModel {
            robot_status: RobotStatus::Running {
                time_left: ROBOT_TIME_MILLIS,
                partial_buckets: 0,
            },
            ..old(digging)@
        }),
        !r ==> final(digging)@ == old(digging)@,
{
    if check_answer(challenge, answer) {
        digging.solve_captcha();
        true
    } else {
        false
    }
}

} // verus!
