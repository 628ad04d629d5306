//! Musical timing: converting a tempo and a note duration denominator into
//! milliseconds, and splitting a note's nominal duration into the sounding
//! part and the articulation gap.

use vstd::prelude::*;

verus! {

/// Milliseconds of a whole note at the given tempo: a beat is a quarter
/// note lasting `60_000 / tempo_bpm` milliseconds.
pub open spec fn spec_whole_note_ms(tempo_bpm: int) -> int {
    240_000int / tempo_bpm
}

/// Milliseconds of a note whose musical duration has denominator
/// `note_type` (4 is a quarter note, 8 an eighth, and so on). A negative
/// denominator denotes the dotted duration, worth one and a half times the
/// corresponding positive one.
pub open spec fn spec_note_duration_ms(tempo_bpm: int, note_type: int) -> int {
    if note_type >= 0 {
        spec_whole_note_ms(tempo_bpm) / note_type
    } else {
        (spec_whole_note_ms(tempo_bpm) / -note_type) * 3 / 2
    }
}

/// Computes the nominal duration of one note in milliseconds from the
/// tempo and the duration denominator.
pub fn note_duration_ms(tempo_bpm: u32, note_type: i32) -> (r: u32)
    requires
        1 <= tempo_bpm,
        note_type != 0,
        note_type != i32::MIN,
    ensures
        r as int == spec_note_duration_ms(tempo_bpm as int, note_type as int),
        r <= 360_000,
{
    let whole: u32 = 240_000 / tempo_bpm;
    if note_type > 0 {
        whole / (note_type as u32)
    } else {
        let base: u32 = whole / ((-note_type) as u32);
        base * 3 / 2
    }
}

/// Splits a note's nominal duration into the sounding time and the
/// trailing silence: the gap is a tenth of the duration, so that
/// consecutive notes of the same pitch stay audibly distinct, and the two
/// parts together fill the duration exactly.
pub fn envelope_split(duration_ms: u32) -> (r: (u32, u32))
    ensures
        r.1 == duration_ms as int / 10,
        r.0 == duration_ms - r.1,
        r.0 + r.1 == duration_ms,
{
    let silence: u32 = duration_ms / 10;
    (duration_ms - silence, silence)
}

} // verus!
