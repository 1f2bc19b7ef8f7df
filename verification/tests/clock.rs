use audio_clock::audio_clock;
use audio_clock::clock::beats_ratio;
use audio_clock::clock::duration_ratio;
use audio_clock::Ratio;
use audio_clock::DURATION_DEN;
use audio_clock::TEMPO_SCALE;

/// Two fractions denote the same number (cross multiplication).
fn same_value(a: Ratio, b: Ratio) -> bool {
    a.num as u128 * b.den as u128 == b.num as u128 * a.den as u128
}

/// The scenario of the original clock: 132 bpm at 44100 frames per second,
/// advanced, duplicated and retuned, with every position checked exactly.
/// Tempos are in thousandths of a beat per minute, positions exact fractions.
#[test]
fn it_works() {
    let (mut updater, consumer) = audio_clock(132 * TEMPO_SCALE, 44100);
    updater.increment(128);
    assert_eq!(consumer.frames(), 128);
    // beat_duration == 132 / 60 == 2.2
    assert_eq!(consumer.beat_duration(), Ratio { num: 132_000, den: 60_000 });
    assert!(same_value(consumer.beat_duration(), Ratio { num: 22, den: 10 }));
    // beat == beat_duration * frames / 44100
    let d = consumer.beat_duration();
    assert!(same_value(
        consumer.beat(),
        Ratio {
            num: d.num * consumer.frames() as u64,
            den: d.den * 44100,
        }
    ));
    updater.increment(64);
    assert_eq!(consumer.frames(), 128 + 64);
    assert_eq!(consumer.beat_duration(), Ratio { num: 132_000, den: 60_000 });
    let d = consumer.beat_duration();
    assert!(same_value(
        consumer.beat(),
        Ratio {
            num: d.num * consumer.frames() as u64,
            den: d.den * 44100,
        }
    ));
    let second_consumer = consumer.clone();
    updater.increment(64);
    assert_eq!(consumer.frames(), 128 + 64 + 64);
    assert_eq!(consumer.frames(), second_consumer.frames());
    assert_eq!(consumer.beat_duration(), second_consumer.beat_duration());
    assert_eq!(consumer.beat(), second_consumer.beat());
    updater.set_tempo(130 * TEMPO_SCALE);
    assert_eq!(consumer.frames(), 128 + 64 + 64);
    assert_eq!(consumer.frames(), second_consumer.frames());
    assert_eq!(consumer.beat_duration(), second_consumer.beat_duration());
    assert_eq!(consumer.beat(), second_consumer.beat());
    // beat_duration == 130 / 60 on both readers
    assert!(same_value(consumer.beat_duration(), Ratio { num: 130, den: 60 }));
    updater.increment(64);
    assert_eq!(consumer.frames(), 128 + 64 + 64 + 64);
    assert_eq!(consumer.frames(), second_consumer.frames());
    assert_eq!(consumer.beat_duration(), second_consumer.beat_duration());
    assert_eq!(consumer.beat(), second_consumer.beat());
    // the last increment was weighted by the new tempo, the earlier ones by the old
    assert_eq!(
        consumer.beat().num,
        132_000 * (128 + 64 + 64) + 130_000 * 64
    );
}

#[test]
fn initial_state() {
    let (_updater, consumer) = audio_clock(120 * TEMPO_SCALE, 48000);
    assert_eq!(consumer.frames(), 0);
    assert_eq!(consumer.beat().num, 0);
    assert_eq!(consumer.beat().den, 60_000 * 48000);
    assert_eq!(consumer.beat_duration(), Ratio { num: 120_000, den: 60_000 });
}

#[test]
fn frames_accumulate_over_increments() {
    let (mut updater, consumer) = audio_clock(120 * TEMPO_SCALE, 48000);
    updater.increment(5);
    updater.increment(0);
    updater.increment(7);
    updater.set_tempo(90 * TEMPO_SCALE);
    updater.increment(100);
    assert_eq!(consumer.frames(), 5 + 0 + 7 + 100);
}

#[test]
fn beat_weighs_each_increment_by_its_tempo() {
    let (mut updater, consumer) = audio_clock(120 * TEMPO_SCALE, 48000);
    updater.increment(100);
    updater.set_tempo(60 * TEMPO_SCALE);
    updater.increment(200);
    updater.set_tempo(90 * TEMPO_SCALE);
    updater.increment(50);
    assert_eq!(
        consumer.beat().num,
        120_000 * 100 + 60_000 * 200 + 90_000 * 50
    );
    assert_eq!(consumer.beat().den, 60_000 * 48000);
}

#[test]
fn beat_duration_ignores_frame_position() {
    let (mut updater, consumer) = audio_clock(77 * TEMPO_SCALE, 22050);
    let before = consumer.beat_duration();
    updater.increment(1000);
    updater.increment(3);
    assert_eq!(consumer.beat_duration(), before);
    assert_eq!(before, Ratio { num: 77_000, den: 60_000 });
}

#[test]
fn set_tempo_leaves_position_untouched() {
    let (mut updater, consumer) = audio_clock(140 * TEMPO_SCALE, 44100);
    updater.increment(500);
    let frames_before: usize = consumer.frames();
    let beat_before = consumer.beat();
    updater.set_tempo(99 * TEMPO_SCALE);
    assert_eq!(consumer.frames(), frames_before);
    assert_eq!(consumer.beat(), beat_before);
    assert_eq!(consumer.beat_duration(), Ratio { num: 99_000, den: 60_000 });
}

#[test]
fn duplicate_reader_matches_original() {
    let (mut updater, consumer) = audio_clock(128 * TEMPO_SCALE, 96000);
    updater.increment(64);
    let twin = consumer.clone();
    assert_eq!(consumer.frames(), twin.frames());
    assert_eq!(consumer.beat(), twin.beat());
    assert_eq!(consumer.beat_duration(), twin.beat_duration());
    updater.increment(64);
    updater.set_tempo(64 * TEMPO_SCALE);
    updater.increment(32);
    assert_eq!(consumer.frames(), twin.frames());
    assert_eq!(consumer.beat(), twin.beat());
    assert_eq!(consumer.beat_duration(), twin.beat_duration());
    assert_eq!(twin.frames(), 64 + 64 + 32);
}

#[test]
fn try_increment_declines_overflow() {
    let (mut updater, consumer) = audio_clock(u64::MAX, 1);
    // a delta of u64::MAX * 2 beats would overflow the beat numerator
    assert!(!updater.try_increment(2));
    assert_eq!(consumer.frames(), 0);
    assert_eq!(consumer.beat().num, 0);
    // one frame at this tempo still fits exactly
    assert!(updater.try_increment(1));
    assert_eq!(consumer.frames(), 1);
    assert_eq!(consumer.beat().num, u64::MAX);
    // the numerator is now full, so one more frame must be declined
    assert!(!updater.try_increment(1));
    assert_eq!(consumer.frames(), 1);
    // but a tempo-less advance still goes through
    updater.set_tempo(0);
    assert!(updater.try_increment(41));
    assert_eq!(consumer.frames(), 42);
    assert_eq!(consumer.beat().num, u64::MAX);
}

#[test]
fn ratio_builders_are_exact() {
    assert_eq!(beats_ratio(5, 2), Ratio { num: 5, den: 120_000 });
    assert_eq!(duration_ratio(180_500), Ratio { num: 180_500, den: DURATION_DEN });
    assert_eq!(DURATION_DEN, 60_000);
    assert_eq!(TEMPO_SCALE, 1000);
}

#[test]
fn minimal_rate_clock() {
    let (mut updater, consumer) = audio_clock(60 * TEMPO_SCALE, 1);
    updater.increment(1);
    // one frame at one frame per second and 60 bpm is exactly one beat
    assert!(same_value(consumer.beat(), Ratio { num: 1, den: 1 }));
    assert_eq!(consumer.frames(), 1);
}
