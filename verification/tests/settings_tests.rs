use yt_dl_service::settings::{
    parse_time, validate_settings, DownloadEntity, LogLevel, ScheduledTime, Settings,
    DEFAULT_AUDIO_FORMAT,
};

fn bare_task() -> DownloadEntity {
    DownloadEntity {
        url: String::from("https://example.org/watch?v=1"),
        output_path: String::from("/data/videos"),
        name: String::from("example"),
        audio_only: None,
        audio_format: None,
        max_resolution: None,
        throttle_speed: None,
        custom_flags: None,
    }
}

fn settings_with(tasks: Vec<DownloadEntity>) -> Settings {
    Settings {
        tasks,
        update_schedule: vec![ScheduledTime::Cron(String::from("* * * * *"))],
        log_dir: None,
        update_on_start: None,
        log_level: Some(LogLevel::Info),
        set_owner: None,
        set_group: None,
    }
}

fn strings(items: &[&str]) -> Vec<String> {
    items.iter().map(|s| s.to_string()).collect()
}

#[test]
fn bare_task_has_no_extra_flags() {
    assert_eq!(bare_task().get_extra_flags(), Vec::<String>::new());
}

#[test]
fn audio_only_uses_mp3_by_default() {
    assert_eq!(DEFAULT_AUDIO_FORMAT, "mp3");
    let mut task = bare_task();
    task.audio_only = Some(true);
    assert_eq!(
        task.get_extra_flags(),
        strings(&["-f", "ba", "-x", "--audio-format", "mp3"])
    );
}

#[test]
fn audio_only_uses_the_given_format() {
    let mut task = bare_task();
    task.audio_only = Some(true);
    task.audio_format = Some(String::from("opus"));
    assert_eq!(
        task.get_extra_flags(),
        strings(&["-f", "ba", "-x", "--audio-format", "opus"])
    );
}

#[test]
fn audio_only_ignores_the_resolution() {
    let mut task = bare_task();
    task.audio_only = Some(true);
    task.max_resolution = Some(1080);
    assert_eq!(
        task.get_extra_flags(),
        strings(&["-f", "ba", "-x", "--audio-format", "mp3"])
    );
}

#[test]
fn audio_format_alone_changes_nothing() {
    let mut task = bare_task();
    task.audio_format = Some(String::from("flac"));
    assert_eq!(task.get_extra_flags(), Vec::<String>::new());
}

#[test]
fn resolution_limits_the_video_height() {
    let mut task = bare_task();
    task.max_resolution = Some(720);
    assert_eq!(
        task.get_extra_flags(),
        strings(&["-f", "bestvideo[height<=720]+bestaudio"])
    );
}

#[test]
fn resolution_is_written_in_full() {
    let mut task = bare_task();
    task.max_resolution = Some(u32::MAX);
    assert_eq!(
        task.get_extra_flags(),
        strings(&["-f", "bestvideo[height<=4294967295]+bestaudio"])
    );
    task.max_resolution = Some(0);
    assert_eq!(
        task.get_extra_flags(),
        strings(&["-f", "bestvideo[height<=0]+bestaudio"])
    );
}

#[test]
fn resolution_is_read_only_without_audio_only() {
    let mut task = bare_task();
    task.audio_only = Some(false);
    task.max_resolution = Some(720);
    assert_eq!(task.get_extra_flags(), Vec::<String>::new());
}

#[test]
fn throttle_speed_adds_rate_limit() {
    let mut task = bare_task();
    task.throttle_speed = Some(String::from("3.5M"));
    assert_eq!(task.get_extra_flags(), strings(&["-r", "3.5M"]));
}

#[test]
fn custom_flags_are_kept_in_order() {
    let mut task = bare_task();
    task.custom_flags = Some(strings(&["--write-subs", "", "--sub-langs", "en"]));
    assert_eq!(
        task.get_extra_flags(),
        strings(&["--write-subs", "", "--sub-langs", "en"])
    );
}

#[test]
fn extra_flags_come_in_fixed_order() {
    let mut task = bare_task();
    task.max_resolution = Some(480);
    task.throttle_speed = Some(String::from("300K"));
    task.custom_flags = Some(strings(&["--no-mtime"]));
    assert_eq!(
        task.get_extra_flags(),
        strings(&[
            "-f",
            "bestvideo[height<=480]+bestaudio",
            "-r",
            "300K",
            "--no-mtime"
        ])
    );
    task.audio_only = Some(true);
    task.audio_format = Some(String::from("m4a"));
    assert_eq!(
        task.get_extra_flags(),
        strings(&[
            "-f",
            "ba",
            "-x",
            "--audio-format",
            "m4a",
            "-r",
            "300K",
            "--no-mtime"
        ])
    );
}

#[test]
fn settings_without_tasks_are_refused() {
    let settings = settings_with(Vec::new());
    assert_eq!(validate_settings(&settings), Err("Tasks list is empty."));
}

#[test]
fn settings_with_tasks_are_accepted() {
    assert_eq!(validate_settings(&settings_with(vec![bare_task()])), Ok(()));
    assert_eq!(
        validate_settings(&settings_with(vec![bare_task(), bare_task(), bare_task()])),
        Ok(())
    );
}

#[test]
fn settings_are_accepted_whatever_else_they_hold() {
    let mut settings = settings_with(vec![bare_task()]);
    settings.update_schedule = Vec::new();
    settings.update_on_start = Some(true);
    settings.set_owner = Some(String::from("media"));
    assert_eq!(validate_settings(&settings), Ok(()));
}

#[test]
fn parse_time_reads_hour_and_minute() {
    assert_eq!(parse_time("9:30"), Some((9, 30)));
    assert_eq!(parse_time("09:05"), Some((9, 5)));
    assert_eq!(parse_time("0:0"), Some((0, 0)));
    assert_eq!(parse_time("23:59"), Some((23, 59)));
}

#[test]
fn parse_time_refuses_text_without_one_colon() {
    assert_eq!(parse_time("abc"), None);
    assert_eq!(parse_time(""), None);
    assert_eq!(parse_time("930"), None);
    assert_eq!(parse_time("1:2:3"), None);
    assert_eq!(parse_time("9::30"), None);
}

#[test]
fn parse_time_refuses_missing_or_bad_numbers() {
    assert_eq!(parse_time(":"), None);
    assert_eq!(parse_time("9:"), None);
    assert_eq!(parse_time(":30"), None);
    assert_eq!(parse_time("a:30"), None);
    assert_eq!(parse_time("9:3o"), None);
    assert_eq!(parse_time(" 9:30"), None);
    assert_eq!(parse_time("9:30 "), None);
    assert_eq!(parse_time("9 :30"), None);
    assert_eq!(parse_time("-1:30"), None);
    assert_eq!(parse_time("9:-0"), None);
    assert_eq!(parse_time("+:30"), None);
    assert_eq!(parse_time("++9:30"), None);
    assert_eq!(parse_time("9.5:30"), None);
    assert_eq!(parse_time("\u{0669}:30"), None);
}

#[test]
fn parse_time_takes_a_plus_sign_and_leading_zeros() {
    assert_eq!(parse_time("+9:+30"), Some((9, 30)));
    assert_eq!(parse_time("000000000000000000000009:0030"), Some((9, 30)));
}

#[test]
fn parse_time_reads_any_number_below_256() {
    assert_eq!(parse_time("25:99"), Some((25, 99)));
    assert_eq!(parse_time("255:255"), Some((255, 255)));
    assert_eq!(parse_time("256:0"), None);
    assert_eq!(parse_time("0:256"), None);
    assert_eq!(parse_time("0:1000"), None);
    assert_eq!(parse_time("99999999999999999999999999:0"), None);
}

#[test]
fn parse_time_agrees_with_split_and_parse() {
    let samples = [
        "9:30", "12:00", "+1:+2", "1:2:3", "", ":", "x:y", "300:1", "007:08", "7:", ":8",
        "1:-2", "25:99", "9:30\n", "\u{ff14}:5",
    ];
    for text in samples {
        let parts: Vec<&str> = text.split(':').collect();
        let expected = if parts.len() == 2 {
            match (parts[0].parse::<u8>(), parts[1].parse::<u8>()) {
                (Ok(hour), Ok(minute)) => Some((hour, minute)),
                _ => None,
            }
        } else {
            None
        };
        assert_eq!(parse_time(text), expected);
    }
}

#[test]
fn parse_time_reads_back_every_written_time() {
    for hour in 0u8..=255 {
        for minute in [0u8, 1, 9, 10, 59, 60, 99, 100, 199, 200, 255] {
            assert_eq!(parse_time(&format!("{}:{}", hour, minute)), Some((hour, minute)));
        }
    }
}
