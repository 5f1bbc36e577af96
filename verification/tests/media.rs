use connect::media::{
    ensure_ffmpeg_init, FfmpegInit,
    detect_gpu_encoder, encode_outcome, encoders_to_try, ffmpeg_encode_args, init_outcome,
    io_other, preferred_gpu_encoder, EncodeAction, EncodeArg, EncodeAttempts, GpuEncoderCache,
};

fn render(args: &[EncodeArg], fps: u32) -> Vec<String> {
    args.iter()
        .map(|a| match a {
            EncodeArg::Flag(s) => s.to_string(),
            EncodeArg::Value(s) => s.clone(),
            EncodeArg::FrameRate(f) => {
                assert_eq!(*f, fps);
                f.to_string()
            }
            EncodeArg::InputPath => "<in>".to_string(),
            EncodeArg::OutputPath => "<out>".to_string(),
        })
        .collect()
}

#[test]
fn gpu_encoder_found_only_when_listed() {
    let listing = " V....D h264_nvenc           NVIDIA NVENC H.264 encoder\n V....D libx264";
    assert_eq!(detect_gpu_encoder(Some(listing)), Some("h264_nvenc".to_string()));
    assert_eq!(detect_gpu_encoder(Some(" V....D libx264 ")), None);
    assert_eq!(detect_gpu_encoder(Some("h264_nven")), None);
    assert_eq!(detect_gpu_encoder(None), None);
}

#[test]
fn gpu_encoder_is_looked_up_once() {
    let mut cache = GpuEncoderCache::new();
    assert!(!cache.is_initialized());
    assert_eq!(preferred_gpu_encoder(&mut cache, Some("xx h264_nvenc")), Some("h264_nvenc".to_string()));
    assert!(cache.is_initialized());
    assert_eq!(preferred_gpu_encoder(&mut cache, None), Some("h264_nvenc".to_string()));
    let mut none_cache = GpuEncoderCache::new();
    assert_eq!(preferred_gpu_encoder(&mut none_cache, None), None);
    assert_eq!(preferred_gpu_encoder(&mut none_cache, Some("h264_nvenc")), None);
}

#[test]
fn plan_prefers_forced_then_gpu_then_software() {
    assert_eq!(encoders_to_try(None, None), vec!["libx264"]);
    assert_eq!(encoders_to_try(None, Some("h264_nvenc".to_string())), vec!["h264_nvenc", "libx264"]);
    assert_eq!(
        encoders_to_try(Some("  h264_vaapi \n"), Some("h264_nvenc".to_string())),
        vec!["h264_vaapi", "libx264"]
    );
    assert_eq!(encoders_to_try(Some("   "), Some("h264_nvenc".to_string())), vec!["libx264"]);
    assert_eq!(encoders_to_try(Some(" libx264 "), None), vec!["libx264"]);
}

#[test]
fn encode_arguments_for_each_encoder() {
    let base = |enc: &str| -> Vec<String> {
        [
            "-hide_banner", "-loglevel", "error", "-y", "-f", "hevc", "-framerate", "20", "-fflags",
            "+genpts", "-i", "<in>", "-an", "-c:v", enc, "-pix_fmt", "yuv420p",
        ]
        .iter()
        .map(|s| s.to_string())
        .collect()
    };
    let tail: Vec<String> = ["-movflags", "+faststart", "<out>"].iter().map(|s| s.to_string()).collect();

    let mut x264 = base("libx264");
    x264.extend(["-preset".to_string(), "veryfast".to_string()]);
    x264.extend(tail.clone());
    assert_eq!(render(&ffmpeg_encode_args(20, "libx264"), 20), x264);

    let mut nvenc = base("h264_nvenc");
    nvenc.extend(["-preset".to_string(), "p4".to_string()]);
    nvenc.extend(tail.clone());
    assert_eq!(render(&ffmpeg_encode_args(20, "h264_nvenc"), 20), nvenc);

    let mut other = base("h264_vaapi");
    other.extend(tail);
    assert_eq!(render(&ffmpeg_encode_args(20, "h264_vaapi"), 20), other);
}

#[test]
fn attempts_try_each_encoder_then_report() {
    let mut a = EncodeAttempts::for_remux(None, Some("h264_nvenc".to_string()));
    match a.next_action() {
        EncodeAction::Try(e) => assert_eq!(e, "h264_nvenc"),
        EncodeAction::GiveUp(_) => panic!("expected an attempt"),
    }
    a.record_failure("no device");
    match a.next_action() {
        EncodeAction::Try(e) => assert_eq!(e, "libx264"),
        EncodeAction::GiveUp(_) => panic!("expected an attempt"),
    }
    a.record_failure("bad input");
    match a.next_action() {
        EncodeAction::GiveUp(err) => assert_eq!(
            err.message,
            "ffmpeg encode failed for all encoders (h264_nvenc: no device | libx264: bad input)"
        ),
        EncodeAction::Try(_) => panic!("expected the report"),
    }
}

#[test]
fn empty_plan_reports_at_once() {
    let a = EncodeAttempts::new(Vec::new());
    match a.next_action() {
        EncodeAction::GiveUp(err) => assert_eq!(err.message, "ffmpeg encode failed for all encoders ()"),
        EncodeAction::Try(_) => panic!("expected the report"),
    }
}

#[test]
fn failures_keep_their_messages() {
    assert_eq!(io_other("boom".to_string()).message, "boom");
    assert!(encode_outcome(true, "ignored".to_string()).is_ok());
    assert_eq!(encode_outcome(false, "broken pipe".to_string()).unwrap_err().message, "broken pipe");
    assert!(init_outcome(&Ok(())).is_ok());
    assert_eq!(
        init_outcome(&Err("no codecs".to_string())).unwrap_err().message,
        "ffmpeg init failed: no codecs"
    );
}

#[test]
fn unicode_whitespace_is_trimmed_from_the_forced_encoder() {
    assert_eq!(
        encoders_to_try(Some("\u{3000}\u{85}h264_qsv\u{2009}\t"), None),
        vec!["h264_qsv", "libx264"]
    );
    assert_eq!(encoders_to_try(Some("\u{a0}\u{2028}"), None), vec!["libx264"]);
    assert_eq!(
        encoders_to_try(Some("\u{200b}x"), None),
        vec!["\u{200b}x", "libx264"]
    );
}

#[test]
fn media_library_starts_once() {
    let mut ok = FfmpegInit::new();
    assert!(!ok.is_done());
    assert!(ensure_ffmpeg_init(&mut ok, Some(Ok(()))).is_ok());
    assert!(ok.is_done());
    assert!(ensure_ffmpeg_init(&mut ok, Some(Err("late".to_string()))).is_ok());
    assert!(ensure_ffmpeg_init(&mut ok, None).is_ok());

    let mut failed = FfmpegInit::new();
    let first = ensure_ffmpeg_init(&mut failed, Some(Err("no codecs".to_string())));
    assert_eq!(first.unwrap_err().message, "ffmpeg init failed: no codecs");
    let again = ensure_ffmpeg_init(&mut failed, Some(Ok(())));
    assert_eq!(again.unwrap_err().message, "ffmpeg init failed: no codecs");
}
