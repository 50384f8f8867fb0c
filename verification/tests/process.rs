use clips_app::ffmpeg::{
    mix_args, parse_progress_line, probe_args, trim_args, ProgressStep, ProgressTracker,
};
use clips_app::process::{build_filter_chain, channel_options, select_channels, AudioWeights};
use clips_app::progress::{format_stage_detail, Stage};

const AUDIO: &str = "aformat=sample_fmts=fltp:sample_rates=48000:channel_layouts=stereo";
const MIC: &str = "aformat=sample_fmts=fltp:sample_rates=48000,pan=stereo|FL<c0|FR<c0";

fn texts(items: &[&str]) -> Vec<String> {
    items.iter().map(|item| item.to_string()).collect()
}

fn weights() -> AudioWeights {
    AudioWeights::new(Some("1.5".to_string()), None, Some("0.8".to_string()))
}

#[test]
fn channels_of_a_capture() {
    assert_eq!(channel_options(), texts(&["voice", "discord", "game"]));
}

#[test]
fn chosen_channels_come_in_the_capture_order() {
    assert_eq!(select_channels(&texts(&["game", "voice"])), texts(&["voice", "game"]));
    assert_eq!(select_channels(&texts(&["DISCORD"])), texts(&["discord"]));
    assert_eq!(select_channels(&texts(&["Game", "game", "x"])), texts(&["game"]));
}

#[test]
fn every_channel_is_mixed_where_none_is_chosen() {
    assert_eq!(select_channels(&Vec::new()), texts(&["voice", "discord", "game"]));
    assert_eq!(select_channels(&texts(&["music", ""])), texts(&["voice", "discord", "game"]));
}

#[test]
fn weights_default_to_one() {
    assert_eq!(
        AudioWeights::new(None, None, None),
        AudioWeights { mic: "1.0".to_string(), discord: "1.0".to_string(), game: "1.0".to_string() }
    );
    let w = weights();
    assert_eq!(w.weight_for("voice"), "1.5");
    assert_eq!(w.weight_for("discord"), "1.0");
    assert_eq!(w.weight_for("game"), "0.8");
    assert_eq!(w.weight_for("Voice"), "1.0");
    assert_eq!(w.weight_for(""), "1.0");
}

#[test]
fn filter_chain_of_all_channels() {
    let chain = build_filter_chain(&texts(&["voice", "discord", "game"]), "0.891251", &weights());
    assert_eq!(
        chain,
        format!(
            "[0:a:0]{MIC}[mic];[0:a:1]{AUDIO}[vc];[0:a:2]{AUDIO}[game];\
             [mic][vc][game]amix=inputs=3:duration=longest:normalize=1:weights=1.5|1.0|0.8,\
             alimiter=limit=0.891251,{AUDIO}[aout]"
        )
    );
}

#[test]
fn filter_chain_of_one_channel() {
    let chain = build_filter_chain(&texts(&["game"]), "1.000000", &weights());
    assert_eq!(
        chain,
        format!("[0:a:2]{AUDIO}[game];[game]alimiter=limit=1.000000,{AUDIO}[aout]")
    );
}

#[test]
fn filter_chain_keeps_the_order_given() {
    let chain = build_filter_chain(&texts(&["game", "music", "voice"]), "0.5", &weights());
    assert_eq!(
        chain,
        format!(
            "[0:a:2]{AUDIO}[game];[0:a:0]{MIC}[mic];\
             [game][mic]amix=inputs=2:duration=longest:normalize=1:weights=0.8|1.5,\
             alimiter=limit=0.5,{AUDIO}[aout]"
        )
    );
}

#[test]
fn filter_chain_without_a_known_channel() {
    for channels in [Vec::new(), texts(&["music"])] {
        let chain = build_filter_chain(&channels, "0.9", &weights());
        assert_eq!(chain, format!("[0:a:0]{AUDIO}[mix];[mix]alimiter=limit=0.9,{AUDIO}[aout]"));
    }
}

#[test]
fn progress_lines_are_key_and_value() {
    assert_eq!(
        parse_progress_line("out_time_ms=1500000"),
        Some(("out_time_ms".to_string(), "1500000".to_string()))
    );
    assert_eq!(
        parse_progress_line("  speed =  1.5x = fast  "),
        Some(("speed".to_string(), "1.5x = fast".to_string()))
    );
    assert_eq!(parse_progress_line("progress"), Some(("progress".to_string(), String::new())));
    assert_eq!(parse_progress_line("key="), Some(("key".to_string(), String::new())));
}

#[test]
fn progress_lines_without_key_are_passed_over() {
    assert_eq!(parse_progress_line(""), None);
    assert_eq!(parse_progress_line("   \t"), None);
    assert_eq!(parse_progress_line("=value"), None);
    assert_eq!(parse_progress_line("  = value"), None);
}

#[test]
fn progress_is_reported_at_the_end_of_each_block() {
    let mut tracker = ProgressTracker::new();
    assert_eq!(tracker.on_line("frame=10"), ProgressStep::Continue);
    assert_eq!(tracker.on_line("out_time_ms=100"), ProgressStep::Continue);
    assert_eq!(tracker.on_line("out_time_ms=250"), ProgressStep::Continue);
    assert_eq!(tracker.on_line(""), ProgressStep::Continue);
    assert_eq!(
        tracker.on_line("progress=continue"),
        ProgressStep::Report { out_time: Some("250".to_string()) }
    );
    // The block is over: what it named is forgotten.
    assert_eq!(tracker.on_line("progress=continue"), ProgressStep::Report { out_time: None });
    assert_eq!(tracker.on_line("out_time_ms=900"), ProgressStep::Continue);
    assert_eq!(tracker.on_line("progress=end"), ProgressStep::End);
}

#[test]
fn probe_arguments() {
    assert_eq!(
        probe_args("/raw/a.mp4"),
        texts(&[
            "-v", "error", "-show_entries", "format=duration", "-of",
            "default=noprint_wrappers=1:nokey=1", "/raw/a.mp4",
        ])
    );
}

#[test]
fn trim_arguments() {
    assert_eq!(
        trim_args("/raw/in.mp4", "/raw/out.mp4", "1.5", "7.75"),
        texts(&[
            "-hide_banner", "-loglevel", "warning", "-y", "-nostats", "-progress", "pipe:1", "-ss",
            "1.5", "-i", "/raw/in.mp4", "-t", "7.75", "-c", "copy", "-avoid_negative_ts",
            "make_zero", "/raw/out.mp4",
        ])
    );
}

#[test]
fn mix_arguments() {
    assert_eq!(
        mix_args("/raw/in.mp4", "FILTER", "/raw/in_transformed.mp4"),
        texts(&[
            "-hide_banner", "-loglevel", "warning", "-y", "-nostats", "-progress", "pipe:1", "-i",
            "/raw/in.mp4", "-filter_complex", "FILTER", "-map", "0:v:0", "-map", "[aout]", "-c:v",
            "copy", "-c:a", "aac", "-b:a", "192k", "-ar", "48000", "-ac", "2", "-movflags",
            "+faststart", "/raw/in_transformed.mp4",
        ])
    );
}

#[test]
fn stage_detail_is_right_aligned() {
    assert_eq!(format_stage_detail(Stage::Upload, 0, "uploaded"), "  0% uploaded");
    assert_eq!(format_stage_detail(Stage::Upload, 7, "uploaded"), "  7% uploaded");
    assert_eq!(format_stage_detail(Stage::Transform, 42, "encoded"), " 42% encoded");
    assert_eq!(format_stage_detail(Stage::AwaitExport, 100, "trimmed"), "100% trimmed");
    assert_eq!(format_stage_detail(Stage::Done, 1234, ""), "1234% ");
    for percent in [0u32, 9, 10, 99, 100, 101] {
        assert_eq!(format_stage_detail(Stage::Upload, percent, "x"), format!("{percent:>3}% x"));
    }
}
