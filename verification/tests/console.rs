use oid::audio::{
    device_index, execute_with_runner, execute_with_runner_on, parse, parse_output_devices, start_macos_relay,
    stop_macos_relay, stop_relay_with_state, AudioRelayHost, AudioRequest, CommandRunner,
    MuteAction, Platform,
};
use oid::editor::LineBuffer;
use oid::signals::{ProcessSignal, SignalController};
use std::sync::Mutex;

#[derive(Debug)]
struct FakeRunner {
    calls: Mutex<Vec<(String, Vec<String>)>>,
    wpctl_fails: bool,
}

impl FakeRunner {
    fn new(wpctl_fails: bool) -> Self {
        Self {
            calls: Mutex::new(Vec::new()),
            wpctl_fails,
        }
    }
}

impl CommandRunner for FakeRunner {
    fn run(&self, program: &str, args: &[&str]) -> Result<String, String> {
        self.calls.lock().expect("calls lock").push((
            program.to_owned(),
            args.iter().map(|argument| (*argument).to_owned()).collect(),
        ));
        if program == "wpctl" && self.wpctl_fails {
            Err("wpctl unavailable".to_owned())
        } else {
            Ok("Volume: 2.00".to_owned())
        }
    }
}

#[test]
fn parses_supported_gain_and_mute_controls() {
    assert_eq!(parse("audio"), Ok(AudioRequest::Status));
    assert_eq!(parse("aidio 2x"), Ok(AudioRequest::Gain(2)));
    assert_eq!(parse("audio 2x"), Ok(AudioRequest::Gain(2)));
    assert_eq!(parse("audio 300%"), Ok(AudioRequest::Gain(3)));
    assert_eq!(
        parse("audio toggle-mute"),
        Ok(AudioRequest::Mute(MuteAction::Toggle))
    );
    assert!(parse("audio 4x").is_err());
}

#[test]
fn sets_pipewire_gain_with_a_three_x_limit() {
    let runner = FakeRunner::new(false);
    let output = execute_with_runner("audio 2x", &runner);
    assert!(output[0].contains("200%) via PipeWire"));
    assert_eq!(
        runner.calls.into_inner().expect("calls"),
        vec![(
            "wpctl".to_owned(),
            vec![
                "set-volume".to_owned(),
                "@DEFAULT_AUDIO_SINK@".to_owned(),
                "2.0".to_owned(),
                "--limit".to_owned(),
                "3.0".to_owned(),
            ],
        )]
    );
}

#[test]
fn falls_back_to_pulseaudio() {
    let runner = FakeRunner::new(true);
    let output = execute_with_runner("audio 3x", &runner);
    assert!(output[0].contains("300%) via PulseAudio"));
    let calls = runner.calls.into_inner().expect("calls");
    assert_eq!(calls[0].0, "wpctl");
    assert_eq!(calls[1].0, "pactl");
    assert_eq!(calls[1].1.last().map(String::as_str), Some("300%"));
}

#[test]
fn supports_editing_operations() {
    let mut line = LineBuffer::new();
    line.insert('a');
    line.insert('c');
    line.left();
    line.insert('b');
    line.home();
    line.delete();
    line.end();
    line.backspace();
    assert_eq!(line.text(), "b");
}

#[test]
fn injected_signals_are_deterministic_and_distinct() {
    let mut controller = SignalController::test();
    controller.inject(ProcessSignal::Interrupt);
    controller.inject(ProcessSignal::Terminate);
    assert!(controller.take_interrupt());
    assert!(controller.take_shutdown());
    assert!(!controller.take_interrupt());
}

#[test]
fn repeated_interrupts_are_idempotently_consumed() {
    let mut controller = SignalController::test();
    controller.inject(ProcessSignal::Interrupt);
    controller.inject(ProcessSignal::Interrupt);
    assert!(controller.take_interrupt());
    assert!(!controller.take_interrupt());
}

const LISTING: &str = "[AudioToolbox @ 0x1] AudioToolbox output devices:\n\
[AudioToolbox @ 0x1] [0] BlackHole 16ch\n\
[AudioToolbox @ 0x1] [1] MacBook Pro Speakers\n\
[AudioToolbox @ 0x1] [2]   \n";

struct FakeRelay {
    calls: Mutex<Vec<String>>,
    state: Mutex<Option<String>>,
    current: String,
    spawn_fails: bool,
}

impl FakeRelay {
    fn new(current: &str, spawn_fails: bool) -> Self {
        Self {
            calls: Mutex::new(Vec::new()),
            state: Mutex::new(None),
            current: current.to_owned(),
            spawn_fails,
        }
    }
}

impl CommandRunner for FakeRelay {
    fn run(&self, program: &str, args: &[&str]) -> Result<String, String> {
        self.calls
            .lock()
            .expect("calls")
            .push(format!("{program} {}", args.join(" ")));
        if program == "SwitchAudioSource" && args.first() == Some(&"-c") {
            Ok(format!("{{\"name\": \"{}\", \"type\": \"output\"}}", self.current))
        } else {
            Ok(String::new())
        }
    }
}

impl AudioRelayHost for FakeRelay {
    fn output_devices(&self) -> Result<String, String> {
        Ok(LISTING.to_owned())
    }
    fn spawn_relay(&self, gain: &str, device_index: usize) -> Result<u32, String> {
        self.calls
            .lock()
            .expect("calls")
            .push(format!("ffmpeg {gain} {device_index}"));
        if self.spawn_fails {
            Err("no ffmpeg".to_owned())
        } else {
            Ok(4242)
        }
    }
    fn save_relay_state(&self, state: &str) -> Result<(), String> {
        *self.state.lock().expect("state") = Some(state.to_owned());
        Ok(())
    }
    fn relay_state(&self) -> Option<String> {
        self.state.lock().expect("state").clone()
    }
    fn clear_relay_state(&self) {
        *self.state.lock().expect("state") = None;
    }
}

#[test]
fn lists_ffmpeg_output_devices_by_index() {
    let devices = parse_output_devices(LISTING);
    assert_eq!(
        devices,
        vec![
            (0, "BlackHole 16ch".to_owned()),
            (1, "MacBook Pro Speakers".to_owned())
        ]
    );
    assert_eq!(device_index(&devices, "MacBook Pro Speakers"), Some(1));
    assert_eq!(device_index(&devices, "Headphones"), None);
}

#[test]
fn relay_starts_through_the_current_device_and_saves_its_state() {
    let host = FakeRelay::new("MacBook Pro Speakers", false);
    let output = start_macos_relay(&host, 3);
    assert_eq!(
        output,
        vec!["System audio relay started at 3x through MacBook Pro Speakers.".to_owned()]
    );
    assert_eq!(
        host.relay_state(),
        Some("4242\nMacBook Pro Speakers\n1\n".to_owned())
    );
    let calls = host.calls.lock().expect("calls").clone();
    assert_eq!(
        calls,
        vec![
            "SwitchAudioSource -c -t output -f json".to_owned(),
            "SwitchAudioSource -s BlackHole 16ch".to_owned(),
            "ffmpeg 3.0 1".to_owned(),
        ]
    );
    // Stopping terminates the process, restores the device and forgets the state.
    assert!(stop_macos_relay(&host).is_empty());
    assert_eq!(host.relay_state(), None);
    let calls = host.calls.lock().expect("calls").clone();
    assert_eq!(calls[3], "kill -TERM 4242");
    assert_eq!(calls[4], "SwitchAudioSource -s MacBook Pro Speakers");
}

#[test]
fn relay_reports_unknown_devices_and_failed_starts() {
    let host = FakeRelay::new("Headphones", false);
    assert_eq!(
        start_macos_relay(&host, 2),
        vec!["FFmpeg could not find the physical output device \"Headphones\".".to_owned()]
    );
    let host = FakeRelay::new("BlackHole 16ch", false);
    assert_eq!(start_macos_relay(&host, 2)[0], "Could not identify a physical macOS output device.");
    let host = FakeRelay::new("MacBook Pro Speakers", true);
    let output = start_macos_relay(&host, 2);
    assert!(output[0].contains("could not start ffmpeg: no ffmpeg"));
    let calls = host.calls.lock().expect("calls").clone();
    assert_eq!(calls.last().map(String::as_str), Some("SwitchAudioSource -s MacBook Pro Speakers"));
}

#[test]
fn stopping_a_relay_reports_failed_steps() {
    struct Failing;
    impl CommandRunner for Failing {
        fn run(&self, program: &str, _args: &[&str]) -> Result<String, String> {
            Err(format!("{program} failed"))
        }
    }
    let (stopped, warnings) = stop_relay_with_state(&Failing, "77\nSpeakers\n1\n");
    assert!(stopped);
    assert_eq!(
        warnings,
        vec![
            "Audio relay stop warning: kill failed".to_owned(),
            "Audio output restore warning: SwitchAudioSource failed".to_owned()
        ]
    );
    let (stopped, warnings) = stop_relay_with_state(&Failing, "77\n");
    assert!(stopped);
    assert_eq!(warnings.len(), 1);
    assert_eq!(stop_relay_with_state(&Failing, ""), (false, Vec::new()));
}

#[test]
fn malformed_audio_command_runs_no_program() {
    for platform in [Platform::Linux, Platform::MacOs] {
        let runner = FakeRunner::new(false);
        let output = execute_with_runner_on(platform, "audio 4x", &runner);
        assert_eq!(
            output,
            vec![
                "Unsupported audio control: 4x".to_owned(),
                "Usage: :audio [status|1x|2x|3x|mute|unmute|toggle-mute]".to_owned(),
            ]
        );
        assert!(runner.calls.into_inner().expect("calls").is_empty());
    }
}
