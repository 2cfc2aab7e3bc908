use vstd::prelude::*;

verus! {

/// One step of a sound pattern for a passive buzzer: a square wave of
/// `cycles` periods, each high for `half_period_us` and low as long, or
/// silence for `ms` milliseconds.
#[derive(Clone, Copy, Debug, PartialEq, Eq, Structural)]
pub enum SoundStep {
    Tone { half_period_us: u32, cycles: u32 },
    Pause { ms: u32 },
}

/// Half the period, in microseconds, of a tone of `freq` hertz.
pub open spec fn half_period(freq: int) -> u32 {
    (1_000_000int / freq / 2) as u32
}

/// `s` played `n` times over.
pub open spec fn repeat(s: Seq<SoundStep>, n: nat) -> Seq<SoundStep>
    decreases n,
{
    if n == 0 {
        Seq::empty()
    } else {
        repeat(s, (n - 1) as nat) + s
    }
}

/// The search for the buzzer's loudest frequency: 500 periods at each of
/// 2000, 2200, ..., 5800 Hz, each followed by 200 ms of silence.
pub open spec fn resonance_plan() -> Seq<SoundStep> {
    Seq::new(
        40,
        |i: int|
            if i % 2 == 0 {
                SoundStep::Tone { half_period_us: half_period(2000 + 200 * (i / 2)), cycles: 500 }
            } else {
                SoundStep::Pause { ms: 200 }
            },
    )
}

/// The siren: 10 periods at each of 800, 900, ..., 1900 Hz, then the same
/// frequencies downwards.
pub open spec fn siren_plan() -> Seq<SoundStep> {
    Seq::new(
        24,
        |i: int|
            SoundStep::Tone {
                half_period_us: half_period(800 + 100 * (if i < 12 { i } else { 23 - i })),
                cycles: 10,
            },
    )
}

/// The resonance search visits each of 2000, 2200, ..., 5800 Hz once, in
/// rising order, each for 500 periods and followed by 200 ms of silence:
/// step `2k` is the tone at `2000 + 200k` Hz, step `2k + 1` the silence.
pub proof fn lemma_resonance_sweep()
    ensures
        resonance_plan().len() == 40,
        forall|i: int|
            0 <= i < 40 ==> #[trigger] resonance_plan()[i] == if i % 2 == 0 {
                SoundStep::Tone {
                    half_period_us: (1_000_000int / (2000 + 200 * (i / 2)) / 2) as u32,
                    cycles: 500,
                }
            } else {
                SoundStep::Pause { ms: 200 }
            },
{
}

/// The siren plays 10 periods at each of 800, 900, ..., 1900 Hz once,
/// rising (step `i` at `800 + 100i` Hz), then the same tones falling (step
/// `23 - i` again at `800 + 100i` Hz).
pub proof fn lemma_siren_sweep()
    ensures
        siren_plan().len() == 24,
        forall|i: int|
            0 <= i < 12 ==> #[trigger] siren_plan()[i] == (SoundStep::Tone {
                half_period_us: (1_000_000int / (800 + 100 * i) / 2) as u32,
                cycles: 10,
            }),
        forall|i: int|
            12 <= i < 24 ==> #[trigger] siren_plan()[i] == (SoundStep::Tone {
                half_period_us: (1_000_000int / (800 + 100 * (23 - i)) / 2) as u32,
                cycles: 10,
            }),
{
}

/// Two rounds of three half-second blasts of `tone`, each blast followed by
/// 500 ms of silence and each round by a further 1500 ms.
pub open spec fn blasts_plan(tone: SoundStep) -> Seq<SoundStep> {
    repeat(repeat(seq![tone, SoundStep::Pause { ms: 500 }], 3).push(SoundStep::Pause { ms: 1500 }), 2)
}

/// Two rounds of three blasts: each blast is the tone and 500 ms of
/// silence, each round ends with a further 1500 ms.
pub proof fn lemma_blasts_pattern(tone: SoundStep)
    ensures
        blasts_plan(tone) == seq![
            tone,
            SoundStep::Pause { ms: 500 },
            tone,
            SoundStep::Pause { ms: 500 },
            tone,
            SoundStep::Pause { ms: 500 },
            SoundStep::Pause { ms: 1500 },
            tone,
            SoundStep::Pause { ms: 500 },
            tone,
            SoundStep::Pause { ms: 500 },
            tone,
            SoundStep::Pause { ms: 500 },
            SoundStep::Pause { ms: 1500 },
        ],
{
    let b = seq![tone, SoundStep::Pause { ms: 500 }];
    reveal_with_fuel(repeat, 4);
    assert(repeat(b, 3) =~= b + b + b) by {
        assert(repeat(b, 0) =~= Seq::<SoundStep>::empty());
        assert(repeat(b, 1) =~= b);
    }
    let round = repeat(b, 3).push(SoundStep::Pause { ms: 1500 });
    assert(repeat(round, 2) =~= round + round) by {
        assert(repeat(round, 0) =~= Seq::<SoundStep>::empty());
        assert(repeat(round, 1) =~= round);
    }
    assert(blasts_plan(tone) =~= seq![
        tone,
        SoundStep::Pause { ms: 500 },
        tone,
        SoundStep::Pause { ms: 500 },
        tone,
        SoundStep::Pause { ms: 500 },
        SoundStep::Pause { ms: 1500 },
        tone,
        SoundStep::Pause { ms: 500 },
        tone,
        SoundStep::Pause { ms: 500 },
        tone,
        SoundStep::Pause { ms: 500 },
        SoundStep::Pause { ms: 1500 },
    ]);
}

/// Two rounds of three blasts of `SoundStep::Tone { half_period_us, cycles }`.
fn blasts(half_period_us: u32, cycles: u32) -> (r: Vec<SoundStep>)
    ensures
        r@ == blasts_plan(SoundStep::Tone { half_period_us, cycles }),
{
    let tone = SoundStep::Tone { half_period_us, cycles };
    let ghost blast = seq![tone, SoundStep::Pause { ms: 500 }];
    let ghost round = repeat(blast, 3).push(SoundStep::Pause { ms: 1500 });
    let mut r: Vec<SoundStep> = Vec::new();
    let mut repeat_no: u32 = 0;
    while repeat_no < 2
        invariant
            repeat_no <= 2,
            blast == seq![tone, SoundStep::Pause { ms: 500 }],
            round == repeat(blast, 3).push(SoundStep::Pause { ms: 1500 }),
            r@ == repeat(round, repeat_no as nat),
        decreases 2 - repeat_no,
    {
        let ghost before = r@;
        let mut blast_no: u32 = 0;
        while blast_no < 3
            invariant
                blast_no <= 3,
                blast == seq![tone, SoundStep::Pause { ms: 500 }],
                r@ == before + repeat(blast, blast_no as nat),
            decreases 3 - blast_no,
        {
            r.push(tone);
            r.push(SoundStep::Pause { ms: 500 });
            blast_no = blast_no + 1;
            assert(r@ =~= before + repeat(blast, blast_no as nat));
        }
        r.push(SoundStep::Pause { ms: 1500 });
        repeat_no = repeat_no + 1;
        assert(r@ =~= repeat(round, repeat_no as nat));
    }
    r
}

/// Sweeps 2000 Hz to 5800 Hz in steps of 200 Hz, to find where the buzzer
/// is loudest.
pub fn find_resonance() -> (r: Vec<SoundStep>)
    ensures
        r@ == resonance_plan(),
        r@.len() == 40,
        forall|i: int|
            0 <= i < 40 ==> #[trigger] r@[i] == if i % 2 == 0 {
                SoundStep::Tone {
                    half_period_us: (1_000_000int / (2000 + 200 * (i / 2)) / 2) as u32,
                    cycles: 500,
                }
            } else {
                SoundStep::Pause { ms: 200 }
            },
{
    let mut r: Vec<SoundStep> = Vec::new();
    let mut freq: u32 = 2000;
    while freq < 6000
        invariant
            2000 <= freq <= 6000,
            (freq - 2000) % 200 == 0,
            r@ == resonance_plan().take(((freq - 2000) / 200) * 2),
        decreases 6000 - freq,
    {
        let half = 1_000_000u32 / freq / 2;
        r.push(SoundStep::Tone { half_period_us: half, cycles: 500 });
        r.push(SoundStep::Pause { ms: 200 });
        let ghost k = (freq - 2000) / 200;
        freq = freq + 200;
        proof {
            assert(resonance_plan()[2 * k] == SoundStep::Tone {
                half_period_us: half_period(2000 + 200 * k),
                cycles: 500,
            });
            assert(resonance_plan()[2 * k + 1] == SoundStep::Pause { ms: 200 });
            assert(r@ =~= resonance_plan().take(((freq - 2000) / 200) * 2));
        }
    }
    assert(r@ =~= resonance_plan());
    proof {
        lemma_resonance_sweep();
    }
    r
}

/// A siren sweeping 800 Hz up to 1900 Hz and back down, in steps of 100 Hz.
pub fn alarm_siren() -> (r: Vec<SoundStep>)
    ensures
        r@ == siren_plan(),
        r@.subrange(12, 24) == r@.subrange(0, 12).reverse(),
        r@.len() == 24,
        forall|i: int|
            0 <= i < 12 ==> #[trigger] r@[i] == (SoundStep::Tone {
                half_period_us: (1_000_000int / (800 + 100 * i) / 2) as u32,
                cycles: 10,
            }),
        forall|i: int|
            12 <= i < 24 ==> #[trigger] r@[i] == (SoundStep::Tone {
                half_period_us: (1_000_000int / (800 + 100 * (23 - i)) / 2) as u32,
                cycles: 10,
            }),
{
    let mut r: Vec<SoundStep> = Vec::new();
    let mut freq: u32 = 800;
    while freq < 2000
        invariant
            800 <= freq <= 2000,
            freq % 100 == 0,
            r@ == siren_plan().take((freq - 800) / 100),
        decreases 2000 - freq,
    {
        let period_us = 1_000_000u32 / freq / 2;
        r.push(SoundStep::Tone { half_period_us: period_us, cycles: 10 });
        freq = freq + 100;
        assert(r@ =~= siren_plan().take((freq - 800) / 100));
    }
    let mut freq: u32 = 1900;
    while freq >= 800
        invariant
            700 <= freq <= 1900,
            freq % 100 == 0,
            r@ == siren_plan().take(12 + (1900 - freq) / 100),
        decreases freq,
    {
        let period_us = 1_000_000u32 / freq / 2;
        r.push(SoundStep::Tone { half_period_us: period_us, cycles: 10 });
        freq = freq - 100;
        assert(r@ =~= siren_plan().take(12 + (1900 - freq) / 100));
    }
    assert(r@ =~= siren_plan());
    assert(r@.subrange(12, 24) =~= r@.subrange(0, 12).reverse());
    proof {
        lemma_siren_sweep();
    }
    r
}

/// Three half-second blasts at 2000 Hz, twice over.
pub fn alarm_passive_buzzer_sweet_spot() -> (r: Vec<SoundStep>)
    ensures
        r@ == blasts_plan(SoundStep::Tone { half_period_us: 250, cycles: 1000 }),
        r@.len() == 14,
        forall|i: int|
            0 <= i < 14 ==> #[trigger] r@[i] == if i == 6 || i == 13 {
                SoundStep::Pause { ms: 1500 }
            } else if i % 7 % 2 == 0 {
                SoundStep::Tone { half_period_us: 250, cycles: 1000 }
            } else {
                SoundStep::Pause { ms: 500 }
            },
{
    let half_period: u32 = 1_000_000 / 2000 / 2;
    let cycles_per_blast: u32 = 2000 / 2;
    proof {
        lemma_blasts_pattern(SoundStep::Tone { half_period_us: 250, cycles: 1000 });
    }
    blasts(half_period, cycles_per_blast)
}

/// Three half-second blasts at about 3400 Hz, the pitch of a smoke alarm,
/// twice over.
pub fn alarm_smoke_siren() -> (r: Vec<SoundStep>)
    ensures
        r@ == blasts_plan(SoundStep::Tone { half_period_us: 147, cycles: 1700 }),
        r@.len() == 14,
        forall|i: int|
            0 <= i < 14 ==> #[trigger] r@[i] == if i == 6 || i == 13 {
                SoundStep::Pause { ms: 1500 }
            } else if i % 7 % 2 == 0 {
                SoundStep::Tone { half_period_us: 147, cycles: 1700 }
            } else {
                SoundStep::Pause { ms: 500 }
            },
{
    let half_period: u32 = 1_000_000 / 3400 / 2;
    let cycles_per_blast: u32 = 3400 / 2;
    proof {
        lemma_blasts_pattern(SoundStep::Tone { half_period_us: 147, cycles: 1700 });
    }
    blasts(half_period, cycles_per_blast)
}

/// One short beep at about 2200 Hz, then 50 ms of silence.
pub fn health_check_beep() -> (r: Vec<SoundStep>)
    ensures
        r@ == seq![
            SoundStep::Tone { half_period_us: 227, cycles: 220 },
            SoundStep::Pause { ms: 50 },
        ],
{
    let half_period: u32 = 1_000_000 / 2200 / 2;
    let mut r: Vec<SoundStep> = Vec::new();
    r.push(SoundStep::Tone { half_period_us: half_period, cycles: 220 });
    r.push(SoundStep::Pause { ms: 50 });
    r
}

/// Two shorter beeps at about 2200 Hz, each followed by 100 ms of silence.
pub fn health_check_double_beep() -> (r: Vec<SoundStep>)
    ensures
        r@ == repeat(
            seq![SoundStep::Tone { half_period_us: 227, cycles: 110 }, SoundStep::Pause { ms: 100 }],
            2,
        ),
        r@ == seq![
            SoundStep::Tone { half_period_us: 227, cycles: 110 },
            SoundStep::Pause { ms: 100 },
            SoundStep::Tone { half_period_us: 227, cycles: 110 },
            SoundStep::Pause { ms: 100 },
        ],
{
    let half_period: u32 = 1_000_000 / 2200 / 2;
    let ghost beep = seq![SoundStep::Tone { half_period_us: 227, cycles: 110 }, SoundStep::Pause { ms: 100 }];
    let mut r: Vec<SoundStep> = Vec::new();
    let mut n: u32 = 0;
    while n < 2
        invariant
            n <= 2,
            half_period == 227,
            beep == seq![SoundStep::Tone { half_period_us: 227, cycles: 110 }, SoundStep::Pause { ms: 100 }],
            r@ == repeat(beep, n as nat),
        decreases 2 - n,
    {
        r.push(SoundStep::Tone { half_period_us: half_period, cycles: 110 });
        r.push(SoundStep::Pause { ms: 100 });
        n = n + 1;
        assert(r@ =~= repeat(beep, n as nat));
    }
    proof {
        reveal_with_fuel(repeat, 3);
        assert(repeat(beep, 0) =~= Seq::<SoundStep>::empty());
        assert(repeat(beep, 1) =~= beep);
        assert(r@ =~= seq![
            SoundStep::Tone { half_period_us: 227, cycles: 110 },
            SoundStep::Pause { ms: 100 },
            SoundStep::Tone { half_period_us: 227, cycles: 110 },
            SoundStep::Pause { ms: 100 },
        ]);
    }
    r
}

} // verus!
