use std::io::Cursor;

use wispr::audio::{AudioRecorder, SinkAction};
use wispr::config::default_config;
use wispr::device::{DeviceChoice, HostSnapshot, InputDevice};
use wispr::session::{SessionClock, SessionPlan, StartAction};
use wispr::stream::{SampleFormat, StreamDefaults, WavHeader};

type Writer<'a> = hound::WavWriter<Cursor<&'a mut Vec<u8>>>;

const START: u64 = 1_700_000_000;

fn float_host() -> HostSnapshot {
    HostSnapshot {
        devices: vec![InputDevice {
            name: Some("usb".to_string()),
            defaults: Some(StreamDefaults {
                channels: 1,
                sample_rate: 16000,
                format: SampleFormat::I16,
            }),
        }],
        default_device: Some(InputDevice {
            name: Some("built-in".to_string()),
            defaults: Some(StreamDefaults {
                channels: 2,
                sample_rate: 48000,
                format: SampleFormat::F32,
            }),
        }),
    }
}

fn wav_spec(header: WavHeader) -> hound::WavSpec {
    hound::WavSpec {
        channels: header.channels,
        sample_rate: header.sample_rate,
        bits_per_sample: header.bits_per_sample,
        sample_format: hound::SampleFormat::Int,
    }
}

fn plan_of(outcome: Result<StartAction, wispr::error::RecorderError>) -> SessionPlan {
    match outcome {
        Ok(StartAction::Begin(plan)) => plan,
        other => panic!("no session was planned: {:?}", other),
    }
}

/// Does with the writer what the sink asks for; tells whether it closed it.
fn perform(writer: &mut Option<Writer>, action: SinkAction) -> bool {
    match action {
        SinkAction::Nothing => false,
        SinkAction::Write { samples, flush } => {
            let w = writer.as_mut().expect("the sink writes to an open writer only");
            for s in samples {
                w.write_sample(s).unwrap();
            }
            if flush {
                w.flush().unwrap();
            }
            false
        }
        SinkAction::Finalize => {
            writer.take().expect("the sink closes an open writer only").finalize().unwrap();
            true
        }
    }
}

fn scaled(samples: &[f32]) -> Vec<i32> {
    samples.iter().map(|&s| (s * 32767.0) as i32).collect()
}

fn rms_bits(samples: &[f32]) -> u32 {
    (samples.iter().map(|&s| s * s).sum::<f32>() / samples.len() as f32).sqrt().to_bits()
}

#[test]
fn session_on_nonexistent_mic_produces_a_valid_wav_file() {
    let mut recorder = AudioRecorder::new(default_config("/tmp/wispr".to_string()));
    let plan = plan_of(recorder.start_with_device(
        Some("nonexistent-mic".to_string()),
        &float_host(),
        SessionClock { unix_secs: START, local_secs: 1_700_000_000 },
    ));
    assert_eq!(plan.device, DeviceChoice::Default);
    assert!(plan.fell_back);

    let mut bytes: Vec<u8> = Vec::new();
    let mut closed = 0;
    {
        let mut writer: Option<Writer> =
            Some(hound::WavWriter::new(Cursor::new(&mut bytes), wav_spec(plan.header)).unwrap());
        let first: [f32; 6] = [0.0, 0.5, -0.5, 1.0, -1.0, 0.25];
        let second: [f32; 4] = [1.5, -1.5, 100.0, -100.0];
        for (i, buffer) in [&first[..], &second[..]].iter().enumerate() {
            let action =
                recorder.capture_float(&scaled(buffer), rms_bits(buffer), START + 1 + i as u64);
            closed += perform(&mut writer, action) as u32;
        }
        assert_eq!(recorder.stop(), Ok(Some(plan.output_file.clone())));
        for i in 0..3 {
            let action = recorder.capture_float(&scaled(&first), rms_bits(&first), START + 5 + i);
            closed += perform(&mut writer, action) as u32;
        }
        closed += perform(&mut writer, recorder.stream_closed()) as u32;
        assert!(writer.is_none());
    }
    assert_eq!(closed, 1);

    let mut reader = hound::WavReader::new(Cursor::new(&bytes)).unwrap();
    let spec = reader.spec();
    assert_eq!(spec.channels, 2);
    assert_eq!(spec.sample_rate, 44100);
    assert_eq!(spec.bits_per_sample, 16);
    assert_eq!(spec.sample_format, hound::SampleFormat::Int);
    let samples: Vec<i16> = reader.samples::<i16>().map(|s| s.unwrap()).collect();
    assert_eq!(
        samples,
        vec![0, 16383, -16383, 32767, -32767, 8191, 32767, -32767, 32767, -32767]
    );
}

#[test]
fn pcm_session_stores_the_samples_as_they_came() {
    let mut recorder = AudioRecorder::new(default_config("/tmp/wispr".to_string()));
    let plan = plan_of(recorder.start_with_device(
        Some("usb".to_string()),
        &float_host(),
        SessionClock { unix_secs: START, local_secs: 1_700_000_000 },
    ));
    assert_eq!(plan.device, DeviceChoice::Listed(0));

    let mut bytes: Vec<u8> = Vec::new();
    let data: Vec<i16> = (0..2500).map(|i| (i * 13 % 30000 - 15000) as i16).collect();
    {
        let mut writer: Option<Writer> =
            Some(hound::WavWriter::new(Cursor::new(&mut bytes), wav_spec(plan.header)).unwrap());
        assert!(!perform(&mut writer, recorder.capture_pcm(&data[..1000], START + 1)));
        assert!(!perform(&mut writer, recorder.capture_pcm(&data[1000..], START + 2)));
        assert_eq!(recorder.stop(), Ok(Some(plan.output_file.clone())));
        assert!(perform(&mut writer, recorder.stream_closed()));
        assert!(!perform(&mut writer, recorder.capture_pcm(&data, START + 3)));
    }

    let mut reader = hound::WavReader::new(Cursor::new(&bytes)).unwrap();
    assert_eq!(reader.spec().channels, 1);
    assert_eq!(reader.spec().sample_rate, 44100);
    assert_eq!(reader.spec().bits_per_sample, 16);
    let samples: Vec<i16> = reader.samples::<i16>().map(|s| s.unwrap()).collect();
    assert_eq!(samples, data);
}
