//! The notification chime as data: three short beeps with brief silences
//! between them. Playing it is the caller's.

use vstd::prelude::*;

verus! {

/// One stretch of the chime: a tone of a given pitch, length and loudness.
/// A silence is a tone of loudness zero.
#[derive(Clone, Copy, Debug, PartialEq, Eq, Structural)]
pub struct Tone {
    pub frequency_hz: u32,
    pub millis: u64,
    pub volume_percent: u32,
}

/// How many beeps the chime has.
pub const BEEPS: usize = 3;

/// The beep of the chime.
pub open spec fn beep() -> Tone {
    Tone { frequency_hz: 800, millis: 200, volume_percent: 20 }
}

/// The silence between two beeps.
pub open spec fn silence() -> Tone {
    Tone { frequency_hz: 0, millis: 150, volume_percent: 0 }
}

/// `count` beeps with a silence between each two, none before the first and
/// none after the last.
pub open spec fn beeps(count: nat) -> Seq<Tone>
    decreases count,
{
    if count == 0 {
        Seq::empty()
    } else if count == 1 {
        seq![beep()]
    } else {
        beeps((count - 1) as nat).push(silence()).push(beep())
    }
}

/// The chime is beep, silence, beep, silence, beep.
pub proof fn lemma_chime_is_three_beeps()
    ensures
        beeps(BEEPS as nat) == seq![beep(), silence(), beep(), silence(), beep()],
{
    reveal_with_fuel(beeps, 4);
}

/// The chime to play when a phase ends.
pub fn notification_pattern() -> (tones: Vec<Tone>)
    ensures
        tones@ == beeps(BEEPS as nat),
{
    let mut tones: Vec<Tone> = Vec::new();
    for i in 0..BEEPS
        invariant
            tones@ == beeps(i as nat),
    {
        if i > 0 {
            tones.push(Tone { frequency_hz: 0, millis: 150, volume_percent: 0 });
        }
        tones.push(Tone { frequency_hz: 800, millis: 200, volume_percent: 20 });
    }
    tones
}

} // verus!
