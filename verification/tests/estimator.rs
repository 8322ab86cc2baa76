use bass_pitch::channel::{read_input_stream, result_channel};
use bass_pitch::classifier::{classify, BassInput, CurrentBassNote, ExpectedNote};
use bass_pitch::config::AnalysisConfig;
use bass_pitch::estimate::PitchEstimate;
use bass_pitch::framing::{CaptureStep, FramingBuffer};
use bass_pitch::table::{BassString, FrequencyRangeTable};
use pitch_detection::detector::mcleod::McLeodDetector;
use pitch_detection::detector::PitchDetector;

fn sine(frequency: f64, amplitude: f32, samples: usize, sample_rate: u32) -> Vec<u32> {
    let mut words = Vec::with_capacity(samples);
    let mut i: usize = 0;
    while i < samples {
        let t = i as f64 / sample_rate as f64;
        let x = (2.0 * std::f64::consts::PI * frequency * t).sin() as f32 * amplitude;
        words.push(x.to_bits());
        i += 1;
    }
    words
}

fn estimate(config: &AnalysisConfig, window: &[u32]) -> Option<PitchEstimate> {
    let signal: Vec<f64> = window.iter().map(|w| f32::from_bits(*w) as f64).collect();
    let mut detector = McLeodDetector::new(config.window_size(), config.padding());
    let pitch = detector.get_pitch(
        &signal,
        config.sample_rate() as usize,
        config.power_threshold() as f64,
        config.clarity_threshold() as f64 / 1000.0,
    )?;
    let millihertz = (pitch.frequency * 1000.0).round();
    let clarity = (pitch.clarity * 1000.0).round().clamp(0.0, 1000.0);
    if millihertz.is_finite() && millihertz >= 1.0 && millihertz <= u32::MAX as f64 {
        PitchEstimate::new(millihertz as u32, clarity as u16)
    } else {
        None
    }
}

fn window_of(words: &[u32], config: &AnalysisConfig) -> Vec<u32> {
    let mut buffer = match FramingBuffer::new(config.window_size()) {
        Ok(b) => b,
        Err(e) => panic!("no buffer: {:?}", e),
    };
    for chunk in words.chunks(480) {
        match buffer.on_audio_buffer(chunk) {
            CaptureStep::Buffered(_) => {}
            CaptureStep::WindowReady(window) => return window,
        }
    }
    panic!("the stream was too short for one window");
}

fn heard_within_one_hertz(hertz: u32) -> PitchEstimate {
    let config = AnalysisConfig::standard();
    let words = sine(hertz as f64, 0.8, 9000, 44_100);
    let window = window_of(&words, &config);
    let e = match estimate(&config, &window) {
        Some(e) => e,
        None => panic!("no pitch at {} Hz", hertz),
    };
    let heard = e.frequency() as i64;
    let played = hertz as i64 * 1000;
    assert!((heard - played).abs() <= 1000, "{} Hz heard as {} mHz", hertz, heard);
    e
}

#[test]
fn sine_waves_are_estimated_within_one_hertz() {
    let mut hertz: u32 = 20;
    while hertz <= 90 {
        heard_within_one_hertz(hertz);
        hertz += 5;
    }
}

#[test]
fn lowest_supported_sine_is_estimated_and_sent() {
    let table = FrequencyRangeTable::standard();
    let (sender, receiver) = result_channel();
    let e = heard_within_one_hertz(20);
    sender.publish(Some(e));
    let current = CurrentBassNote { chord: "E".to_string(), fret: 0 };
    let tick = read_input_stream(&receiver, &current, &table);
    assert_eq!(tick.readings, vec![Some(e)]);
}

#[test]
fn highest_supported_sine_is_estimated_and_sent() {
    let table = FrequencyRangeTable::standard();
    let (sender, receiver) = result_channel();
    let e = heard_within_one_hertz(90);
    sender.publish(Some(e));
    let current = CurrentBassNote { chord: "G".to_string(), fret: 10 };
    let tick = read_input_stream(&receiver, &current, &table);
    assert_eq!(tick.readings, vec![Some(e)]);
    assert_eq!(tick.event, Some(BassInput(false)));
}

#[test]
fn top_of_the_table_is_estimated_and_hit() {
    let table = FrequencyRangeTable::standard();
    let (sender, receiver) = result_channel();
    let words = sine(87.5, 0.8, 9000, 44_100);
    let config = AnalysisConfig::standard();
    let e = estimate(&config, &window_of(&words, &config));
    assert!(e.is_some());
    sender.publish(e);
    let current = CurrentBassNote { chord: "G".to_string(), fret: 10 };
    assert_eq!(read_input_stream(&receiver, &current, &table).event, Some(BassInput(true)));
}

#[test]
fn silence_has_no_pitch() {
    let config = AnalysisConfig::standard();
    let window = window_of(&vec![0.0f32.to_bits(); 9000], &config);
    assert_eq!(window.len(), 8192);
    assert_eq!(estimate(&config, &window), None);
}

#[test]
fn faint_signal_has_no_pitch() {
    let config = AnalysisConfig::standard();
    let words = sine(40.0, 0.001, 9000, 44_100);
    let window = window_of(&words, &config);
    assert_eq!(estimate(&config, &window), None);
}

#[test]
fn sine_between_two_frets_end_to_end() {
    let config = AnalysisConfig::standard();
    let table = FrequencyRangeTable::standard();
    let words = sine(23.5, 0.8, 9000, 44_100);
    let window = window_of(&words, &config);
    let e = estimate(&config, &window);
    assert!(e.is_some());
    let fret_one = ExpectedNote::new(BassString::E, 1);
    let fret_two = ExpectedNote::new(BassString::E, 2);
    match (fret_one, fret_two) {
        (Some(one), Some(two)) => {
            assert!(!classify(&table, one, e));
            assert!(classify(&table, two, e));
        }
        _ => panic!("no such fret"),
    }
}

#[test]
fn sine_through_the_whole_pipeline() {
    let config = AnalysisConfig::standard();
    let table = FrequencyRangeTable::standard();
    let (sender, receiver) = result_channel();
    let words = sine(23.5, 0.8, 9000, 44_100);
    let window = window_of(&words, &config);
    sender.publish(estimate(&config, &window));
    let current = CurrentBassNote { chord: "E".to_string(), fret: 1 };
    assert_eq!(read_input_stream(&receiver, &current, &table).event, Some(BassInput(false)));
    sender.publish(estimate(&config, &window));
    let current = CurrentBassNote { chord: "E".to_string(), fret: 2 };
    assert_eq!(read_input_stream(&receiver, &current, &table).event, Some(BassInput(true)));
}

#[test]
fn silence_through_the_whole_pipeline_is_a_miss() {
    let config = AnalysisConfig::standard();
    let table = FrequencyRangeTable::standard();
    let (sender, receiver) = result_channel();
    let window = window_of(&vec![0.0f32.to_bits(); 9000], &config);
    sender.publish(estimate(&config, &window));
    let current = CurrentBassNote { chord: "E".to_string(), fret: 1 };
    assert_eq!(read_input_stream(&receiver, &current, &table).event, Some(BassInput(false)));
}
