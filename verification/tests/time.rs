use ffmpeg_ext::chrono::TimeFormatter;
use ffmpeg_ext::duration::Duration;
use ffmpeg_ext::Opts;

fn gen_stub_opts() -> Opts {
    Opts {
        program: "ffprobe".to_owned(),
        gui: false,
        input_path: None,
        output_path: None,
        action: None,
        verbose: false,
        dryrun: false,
    }
}

#[test]
fn ctor_test() {
    let d = Duration::from(gen_stub_opts());
    assert_eq!(d.secs, 0);
}

#[test]
fn duration_keeps_the_options_it_was_made_from() {
    let mut opts = gen_stub_opts();
    opts.input_path = Some("/v.mp4".to_owned());
    opts.dryrun = true;
    let d = Duration::from(opts);
    assert_eq!(d.secs, 0);
    assert_eq!(d.opts.program, "ffprobe");
    assert_eq!(d.opts.input_path.as_deref(), Some("/v.mp4"));
    assert!(d.opts.output_path.is_none());
    assert!(d.opts.action.is_none());
    assert!(d.opts.dryrun);
}

#[test]
fn from_hhmmss_keeps_each_counter() {
    let tf = TimeFormatter::from_hhmmss(1, 23, 45);
    assert_eq!(tf.hours, 1);
    assert_eq!(tf.minutes, 23);
    assert_eq!(tf.seconds, 45);
}

#[test]
fn from_hhmmss_applies_no_carry() {
    let tf = TimeFormatter::from_hhmmss(0, 90, usize::MAX);
    assert_eq!(tf.hours, 0);
    assert_eq!(tf.minutes, 90);
    assert_eq!(tf.seconds, usize::MAX);
}
