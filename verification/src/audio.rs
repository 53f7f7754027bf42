use vstd::prelude::*;

use crate::game::GameState;

verus! {

/// The tempo, in beats per minute, of each step of a trombone pattern group.
pub open spec fn tempo_table(i: int) -> int {
    if i == 0 {
        60
    } else if i == 1 {
        72
    } else if i == 2 {
        84
    } else if i == 3 {
        96
    } else {
        108
    }
}

/// How many samples each pattern group cycles through.
pub open spec fn num_samples_table(i: int) -> int {
    if i == 0 {
        4
    } else if i == 1 {
        8
    } else if i == 2 {
        8
    } else if i == 3 {
        16
    } else {
        32
    }
}

/// The tempo and number of samples of trombone pattern `n`. Patterns above
/// 16 skip one step; the step picks the tempo from five, each group of five
/// doubles the tempo and takes the group's number of samples.
pub open spec fn spec_tempo_and_num_samples(n: nat) -> (int, int) {
    let m: nat = if n > 16 {
        n + 1
    } else {
        n
    };
    (
        tempo_table((m % 5) as int) * vstd::arithmetic::power2::pow2(m / 5) / 2,
        num_samples_table((m / 5) as int),
    )
}

/// The number of samples in a pattern's group, by range of patterns.
pub open spec fn samples_by_range(n: nat) -> int {
    if n < 5 {
        4
    } else if n < 15 {
        8
    } else if n < 19 {
        16
    } else {
        32
    }
}

/// The tempo of a pattern: within each group it rises by one fifth of the
/// group's base tempo per pattern, and the base doubles from group to group
/// (30, 60, 120, 240, 480 beats per minute); patterns 17 and 18 take the
/// last two steps of their group.
pub open spec fn tempo_by_range(n: nat) -> int {
    if n < 5 {
        30 + 6 * (n as int)
    } else if n < 10 {
        60 + 12 * (n - 5)
    } else if n < 15 {
        120 + 24 * (n - 10)
    } else if n < 17 {
        240 + 48 * (n - 15)
    } else if n < 19 {
        240 + 48 * (n - 14)
    } else {
        480 + 96 * (n - 19)
    }
}

/// Every pattern the metal detector plays has the tempo and the number of
/// samples of its range: 4 samples for patterns 0 to 4, 8 for 5 to 14, 16
/// for 15 to 18 and 32 for 19 to 23.
pub proof fn lemma_patterns_by_range(n: nat)
    requires
        n < 24,
    ensures
        spec_tempo_and_num_samples(n).0 == tempo_by_range(n),
        spec_tempo_and_num_samples(n).1 == samples_by_range(n),
{
    vstd::arithmetic::power2::lemma2_to64();
    let m: nat = if n > 16 {
        n + 1
    } else {
        n
    };
    assert(m < 25);
    if m < 5 {
        assert(m / 5 == 0 && m % 5 == m);
    } else if m < 10 {
        assert(m / 5 == 1 && m % 5 == m - 5);
    } else if m < 15 {
        assert(m / 5 == 2 && m % 5 == m - 10);
    } else if m < 20 {
        assert(m / 5 == 3 && m % 5 == m - 15);
    } else {
        assert(m / 5 == 4 && m % 5 == m - 20);
    }
}

/// The tempo and number of samples of trombone pattern `n`, for the
/// patterns the metal detector plays (fewer than 24).
pub fn get_tempo_and_num_samples(n: usize) -> (r: (usize, usize))
    requires
        n < 24,
    ensures
        r.0 == spec_tempo_and_num_samples(n as nat).0,
        r.1 == spec_tempo_and_num_samples(n as nat).1,
        r.0 == tempo_by_range(n as nat),
        r.1 == samples_by_range(n as nat),
{
    proof {
        lemma_patterns_by_range(n as nat);
    }
    let tempos: [usize; 5] = [60, 72, 84, 96, 108];
    let num_samples: [usize; 5] = [4, 8, 8, 16, 32];
    let m: usize = if n > 16 {
        n + 1
    } else {
        n
    };
    let group: usize = m / 5;
    let step: usize = m % 5;
    let mut scale: usize = 1;
    let mut i: usize = 0;
    proof {
        vstd::arithmetic::power2::lemma2_to64();
    }
    while i < group
        invariant
            group <= 4,
            i <= group,
            scale == vstd::arithmetic::power2::pow2(i as nat),
        decreases group - i,
    {
        proof {
            vstd::arithmetic::power2::lemma_pow2_unfold((i + 1) as nat);
            vstd::arithmetic::power2::lemma2_to64();
        }
        scale = scale * 2;
        i = i + 1;
    }
    proof {
        vstd::arithmetic::power2::lemma2_to64();
        assert(scale <= 16);
        assert(tempos[step as int] <= 108);
        assert(tempos[step as int] * scale <= 108 * 16) by (nonlinear_arith)
            requires
                tempos[step as int] <= 108,
                scale <= 16,
        ;
    }
    let tempo = tempos[step] * scale / 2;
    (tempo, num_samples[group])
}

/// The music track for the scene: the menu's track, or one of the two
/// playing tracks, which alternate each time one ends.
pub fn current_music_track(scene: GameState, current_playing_track: bool) -> (r: usize)
    ensures
        r == match scene {
            GameState::Playing => if current_playing_track {
                2usize
            } else {
                1usize
            },
            GameState::Menu => 0usize,
        },
{
    if scene == GameState::Playing {
        if current_playing_track {
            2
        } else {
            1
        }
    } else {
        0
    }
}

/// The sound effect being played and how far into it playback is.
#[derive(Copy, Clone, Debug, PartialEq, Eq)]
pub struct SfxPlayback {
    pub current_sfx: Option<usize>,
    pub sfx_playhead: usize,
}

impl SfxPlayback {
    /// Nothing playing.
    pub fn new() -> (r: Self)
        ensures
            r == (SfxPlayback { current_sfx: None, sfx_playhead: 0 }),
    {
        SfxPlayback { current_sfx: None, sfx_playhead: 0 }
    }

    /// Starts sound effect `sfx` from its beginning, cutting off any other.
    pub fn trigger(&mut self, sfx: usize)
        ensures
            *final(self) == (SfxPlayback { current_sfx: Some(sfx), sfx_playhead: 0 }),
    {
        self.current_sfx = Some(sfx);
        self.sfx_playhead = 0;
    }

    /// Advances by one frame: the index of the frame of the current effect
    /// to mix in, given the effect's length in frames, or `None` for silence.
    /// An effect that has run out stops.
    pub fn step(&mut self, current_len: usize) -> (r: Option<usize>)
        requires
            old(self).sfx_playhead < usize::MAX,
        ensures
            match old(self).current_sfx {
                None => r is None && *final(self) == *old(self),
                Some(sfx) => if old(self).sfx_playhead >= current_len {
                    r is None && *final(self) == SfxPlayback::new_spec()
                } else {
                    r == Some(old(self).sfx_playhead) && *final(self) == (SfxPlayback {
                        current_sfx: Some(sfx),
                        sfx_playhead: (old(self).sfx_playhead + 1) as usize,
                    })
                },
            },
    {
        match self.current_sfx {
            None => None,
            Some(_) => {
                if self.sfx_playhead >= current_len {
                    self.current_sfx = None;
                    self.sfx_playhead = 0;
                    None
                } else {
                    let frame = self.sfx_playhead;
                    self.sfx_playhead = self.sfx_playhead + 1;
                    Some(frame)
                }
            },
        }
    }

    pub open spec fn new_spec() -> SfxPlayback {
        SfxPlayback { current_sfx: None, sfx_playhead: 0 }
    }
}

} // verus!
