use yt_dl_service::runner::{
    attributes_configured, downloader_arguments, is_sentinel_line, temp_directory, Action, Event,
    Phase, Stage, TaskError, TaskRunner, DOWNLOADER, SENTINEL_PHRASE, TEMP_DIR,
};
use yt_dl_service::settings::DownloadEntity;

fn task(url: &str, output_path: &str) -> DownloadEntity {
    DownloadEntity {
        url: String::from(url),
        output_path: String::from(output_path),
        name: String::from("task"),
        audio_only: None,
        audio_format: None,
        max_resolution: None,
        throttle_speed: None,
        custom_flags: None,
    }
}

fn strings(items: &[&str]) -> Vec<String> {
    items.iter().map(|s| s.to_string()).collect()
}

fn line(text: &str) -> Event {
    Event::StdoutLine(String::from(text))
}

fn plain_runner() -> TaskRunner {
    TaskRunner::new(&None, &None)
}

fn owner_runner() -> TaskRunner {
    TaskRunner::new(&Some(String::from("media")), &None)
}

fn racing(mut runner: TaskRunner) -> TaskRunner {
    assert_eq!(runner.handle(Event::Started), Action::Continue);
    assert_eq!(runner.phase(), Phase::Racing);
    runner
}

#[test]
fn names_are_fixed() {
    assert_eq!(DOWNLOADER, "yt-dlp");
    assert_eq!(TEMP_DIR, "tmp");
    assert_eq!(SENTINEL_PHRASE, "has already been downloaded");
}

#[test]
fn arguments_of_a_bare_task() {
    assert_eq!(
        downloader_arguments(&task("https://example.org/v", "/data/out")),
        strings(&["-P", "/data/out", "-P", "temp:tmp", "--no-progress", "https://example.org/v"])
    );
}

#[test]
fn arguments_carry_the_extra_flags_before_the_url() {
    let mut entity = task("https://example.org/c", "out");
    entity.max_resolution = Some(720);
    entity.throttle_speed = Some(String::from("1M"));
    entity.custom_flags = Some(strings(&["--dateafter", "now-1week"]));
    assert_eq!(
        downloader_arguments(&entity),
        strings(&[
            "-P",
            "out",
            "-P",
            "temp:tmp",
            "--no-progress",
            "-f",
            "bestvideo[height<=720]+bestaudio",
            "-r",
            "1M",
            "--dateafter",
            "now-1week",
            "https://example.org/c",
        ])
    );
}

#[test]
fn arguments_end_with_the_url() {
    let mut entity = task("URL", "");
    entity.audio_only = Some(true);
    let arguments = downloader_arguments(&entity);
    assert_eq!(arguments.last(), Some(&String::from("URL")));
    assert_eq!(arguments.len(), 11);
    assert_eq!(arguments[1], "");
}

#[test]
fn temp_directory_lies_under_the_output_path() {
    assert_eq!(temp_directory("/data/out"), "/data/out/tmp");
    assert_eq!(temp_directory("/data/out/"), "/data/out/tmp");
    assert_eq!(temp_directory("out"), "out/tmp");
    assert_eq!(temp_directory("/"), "/tmp");
    assert_eq!(temp_directory(""), "tmp");
    assert_eq!(temp_directory("a//"), "a//tmp");
}

#[test]
fn temp_directory_is_the_joined_path() {
    for base in ["/data/out", "/data/out/", "out", "/", "", ".", "a b/c", "x/tmp"] {
        let joined = std::path::Path::new(base).join("tmp");
        assert_eq!(Some(temp_directory(base).as_str()), joined.to_str());
    }
}

#[test]
fn sentinel_line_ends_with_the_phrase() {
    assert!(is_sentinel_line("[download] clip.mp4 has already been downloaded"));
    assert!(is_sentinel_line("has already been downloaded"));
    assert!(is_sentinel_line("x has already been downloaded   "));
    assert!(is_sentinel_line("x has already been downloaded\r\n"));
    assert!(is_sentinel_line("x has already been downloaded\u{a0}\t"));
}

#[test]
fn other_lines_are_no_sentinel() {
    assert!(!is_sentinel_line(""));
    assert!(!is_sentinel_line("   "));
    assert!(!is_sentinel_line("[download] 100% of 3.2MiB"));
    assert!(!is_sentinel_line("x has already been downloaded."));
    assert!(!is_sentinel_line("x Has Already Been Downloaded"));
    assert!(!is_sentinel_line("x has already been downloaded and merged"));
    assert!(!is_sentinel_line("as already been downloaded"));
    assert!(!is_sentinel_line("x has already been  downloaded"));
}

#[test]
fn error_messages_name_what_failed() {
    assert_eq!(TaskError::Spawn.message(), "Failed to spawn yt-dlp subprocess.");
    assert_eq!(
        TaskError::StdoutHandle.message(),
        "Failed to get stdout handle from yt-dlp subprocess."
    );
    assert_eq!(
        TaskError::StderrHandle.message(),
        "Failed to get stderr handle from yt-dlp subprocess."
    );
    assert_eq!(TaskError::Kill.message(), "Failed to stop yt-dlp subprocess.");
    assert_eq!(
        TaskError::ListOutputDir.message(),
        "Failed to list directory via indicated path."
    );
    assert_eq!(TaskError::SetOwner.message(), "Error setting new file owner");
    assert_eq!(TaskError::SetGroup.message(), "Error setting new file group");
    assert_eq!(
        TaskError::ListTempDir.message(),
        "Failed to list directory via indicated path."
    );
    assert_eq!(TaskError::RemoveTempDir.message(), "Failed to remove temp directory.");
}

#[test]
fn errors_belong_to_stages() {
    assert_eq!(TaskError::Spawn.stage(), Stage::Spawn);
    assert_eq!(TaskError::StdoutHandle.stage(), Stage::StreamAcquisition);
    assert_eq!(TaskError::StderrHandle.stage(), Stage::StreamAcquisition);
    assert_eq!(TaskError::Kill.stage(), Stage::Kill);
    assert_eq!(TaskError::ListOutputDir.stage(), Stage::OwnerGroup);
    assert_eq!(TaskError::SetOwner.stage(), Stage::OwnerGroup);
    assert_eq!(TaskError::SetGroup.stage(), Stage::OwnerGroup);
    assert_eq!(TaskError::ListTempDir.stage(), Stage::TempRemoval);
    assert_eq!(TaskError::RemoveTempDir.stage(), Stage::TempRemoval);
}

#[test]
fn new_runner_is_starting_without_failure() {
    let runner = plain_runner();
    assert_eq!(runner.phase(), Phase::Starting);
    assert!(!runner.is_finished());
    assert_eq!(runner.outcome(), Ok(()));
}

#[test]
fn spawn_failure_ends_the_run() {
    let mut runner = owner_runner();
    assert_eq!(runner.handle(Event::SpawnFailed), Action::Finish);
    assert!(runner.is_finished());
    assert_eq!(runner.outcome(), Err(TaskError::Spawn));
}

#[test]
fn missing_stream_ends_the_run() {
    let mut runner = plain_runner();
    assert_eq!(runner.handle(Event::StdoutMissing), Action::Finish);
    assert_eq!(runner.outcome(), Err(TaskError::StdoutHandle));
    let mut runner = plain_runner();
    assert_eq!(runner.handle(Event::StderrMissing), Action::Finish);
    assert_eq!(runner.outcome(), Err(TaskError::StderrHandle));
    assert_eq!(runner.phase(), Phase::Finished);
}

#[test]
fn exit_of_the_process_starts_the_cleanup() {
    let mut runner = racing(plain_runner());
    assert_eq!(runner.handle(line("[download] 10%")), Action::Continue);
    assert_eq!(runner.handle(Event::StderrLine), Action::ForwardWarning);
    assert_eq!(runner.handle(Event::Exited(Some(0))), Action::InspectTemp);
    assert_eq!(runner.phase(), Phase::TempCheck);
    assert_eq!(runner.handle(Event::TempEmpty), Action::RemoveTemp);
    assert_eq!(runner.handle(Event::TempRemoved(true)), Action::Finish);
    assert!(runner.is_finished());
    assert_eq!(runner.outcome(), Ok(()));
}

#[test]
fn exit_code_is_recorded_and_is_no_failure() {
    for code in [Some(0), Some(1), Some(-9), None] {
        let mut runner = racing(plain_runner());
        assert_eq!(runner.exit_code(), None);
        assert_eq!(runner.handle(Event::Exited(code)), Action::InspectTemp);
        assert_eq!(runner.exit_code(), code);
        assert_eq!(runner.handle(Event::TempEmpty), Action::RemoveTemp);
        assert_eq!(runner.handle(Event::TempRemoved(true)), Action::Finish);
        assert_eq!(runner.outcome(), Ok(()));
    }
}

#[test]
fn attributes_are_wanted_with_owner_or_group() {
    let name = Some(String::from("media"));
    assert!(!attributes_configured(&None, &None));
    assert!(attributes_configured(&name, &None));
    assert!(attributes_configured(&None, &name));
    assert!(attributes_configured(&name, &name));
}

#[test]
fn closed_stream_ends_the_race() {
    let mut runner = racing(plain_runner());
    assert_eq!(runner.handle(Event::StdoutClosed), Action::InspectTemp);
    let mut runner = racing(owner_runner());
    assert_eq!(runner.handle(Event::StderrClosed), Action::SetAttributes);
    assert_eq!(runner.phase(), Phase::Attributes);
}

#[test]
fn owner_or_group_adds_the_attribute_step() {
    let mut runner = racing(TaskRunner::new(&None, &Some(String::from("users"))));
    assert_eq!(runner.handle(Event::Exited(Some(0))), Action::SetAttributes);
    assert_eq!(runner.handle(Event::AttributesApplied(None)), Action::InspectTemp);
    assert_eq!(runner.handle(Event::TempEmpty), Action::RemoveTemp);
    assert_eq!(runner.handle(Event::TempRemoved(true)), Action::Finish);
    assert_eq!(runner.outcome(), Ok(()));
}

#[test]
fn sentinel_line_kills_and_later_output_is_no_failure() {
    let mut runner = racing(plain_runner());
    assert_eq!(runner.handle(line("[download] Downloading playlist")), Action::Continue);
    assert_eq!(
        runner.handle(line("[download] a.mp4 has already been downloaded")),
        Action::Kill
    );
    assert_eq!(runner.handle(line("[download] Downloading item 2 of 9")), Action::Continue);
    assert_eq!(runner.handle(Event::StderrLine), Action::ForwardWarning);
    assert_eq!(runner.handle(Event::StdoutClosed), Action::Continue);
    assert_eq!(runner.handle(Event::StderrClosed), Action::Continue);
    assert_eq!(runner.handle(Event::Exited(Some(0))), Action::Continue);
    assert_eq!(runner.phase(), Phase::Racing);
    assert_eq!(runner.handle(Event::KillFinished(true)), Action::InspectTemp);
    assert_eq!(runner.handle(Event::TempOccupied), Action::LeaveTemp);
    assert!(runner.is_finished());
    assert_eq!(runner.outcome(), Ok(()));
}

#[test]
fn two_sentinel_lines_kill_once() {
    let mut runner = racing(plain_runner());
    let mut kills: u32 = 0;
    for text in [
        "a has already been downloaded",
        "b has already been downloaded",
        "c",
        "d has already been downloaded  ",
    ] {
        if runner.handle(line(text)) == Action::Kill {
            kills += 1;
        }
    }
    assert_eq!(kills, 1);
    assert_eq!(runner.handle(Event::KillFinished(true)), Action::InspectTemp);
    assert_eq!(runner.handle(line("e has already been downloaded")), Action::Continue);
    assert_eq!(runner.handle(Event::KillFinished(false)), Action::Continue);
    assert_eq!(runner.handle(Event::TempEmpty), Action::RemoveTemp);
    assert_eq!(runner.handle(Event::TempRemoved(true)), Action::Finish);
    assert_eq!(runner.outcome(), Ok(()));
}

#[test]
fn failed_kill_is_reported_after_the_cleanup() {
    let mut runner = racing(owner_runner());
    assert_eq!(runner.handle(line("x has already been downloaded")), Action::Kill);
    assert_eq!(runner.handle(Event::KillFinished(false)), Action::SetAttributes);
    assert_eq!(runner.outcome(), Err(TaskError::Kill));
    assert!(!runner.is_finished());
    assert_eq!(
        runner.handle(Event::AttributesApplied(Some(TaskError::SetGroup))),
        Action::InspectTemp
    );
    assert_eq!(runner.handle(Event::TempEmpty), Action::RemoveTemp);
    assert_eq!(runner.handle(Event::TempRemoved(false)), Action::Finish);
    assert!(runner.is_finished());
    assert_eq!(runner.outcome(), Err(TaskError::Kill));
}

#[test]
fn attribute_failure_does_not_skip_the_temp_directory() {
    let mut runner = racing(owner_runner());
    assert_eq!(runner.handle(Event::Exited(Some(0))), Action::SetAttributes);
    assert_eq!(
        runner.handle(Event::AttributesApplied(Some(TaskError::SetOwner))),
        Action::InspectTemp
    );
    assert_eq!(runner.handle(Event::TempEmpty), Action::RemoveTemp);
    assert_eq!(runner.handle(Event::TempRemoved(true)), Action::Finish);
    assert_eq!(runner.outcome(), Err(TaskError::SetOwner));
}

#[test]
fn unlisted_output_directory_is_the_reported_failure() {
    let mut runner = racing(owner_runner());
    assert_eq!(runner.handle(Event::Exited(Some(0))), Action::SetAttributes);
    assert_eq!(
        runner.handle(Event::AttributesApplied(Some(TaskError::ListOutputDir))),
        Action::InspectTemp
    );
    assert_eq!(runner.handle(Event::TempUnreadable), Action::Finish);
    assert_eq!(runner.outcome(), Err(TaskError::ListOutputDir));
}

#[test]
fn occupied_temp_directory_stays_without_failure() {
    let mut runner = racing(plain_runner());
    assert_eq!(runner.handle(Event::Exited(Some(0))), Action::InspectTemp);
    assert_eq!(runner.handle(Event::TempOccupied), Action::LeaveTemp);
    assert!(runner.is_finished());
    assert_eq!(runner.outcome(), Ok(()));
    assert_eq!(runner.handle(Event::TempEmpty), Action::Finish);
    assert_eq!(runner.handle(Event::TempRemoved(false)), Action::Finish);
    assert_eq!(runner.outcome(), Ok(()));
}

#[test]
fn unreadable_temp_directory_fails_the_task() {
    let mut runner = racing(plain_runner());
    assert_eq!(runner.handle(Event::Exited(Some(0))), Action::InspectTemp);
    assert_eq!(runner.handle(Event::TempUnreadable), Action::Finish);
    assert_eq!(runner.outcome(), Err(TaskError::ListTempDir));
}

#[test]
fn failed_removal_fails_the_task() {
    let mut runner = racing(plain_runner());
    assert_eq!(runner.handle(Event::Exited(Some(0))), Action::InspectTemp);
    assert_eq!(runner.handle(Event::TempEmpty), Action::RemoveTemp);
    assert_eq!(runner.phase(), Phase::TempRemoval);
    assert_eq!(runner.handle(Event::TempRemoved(false)), Action::Finish);
    assert_eq!(runner.outcome(), Err(TaskError::RemoveTempDir));
}

#[test]
fn events_out_of_turn_change_nothing() {
    let mut runner = plain_runner();
    assert_eq!(runner.handle(Event::Exited(Some(0))), Action::Continue);
    assert_eq!(runner.handle(line("x has already been downloaded")), Action::Continue);
    assert_eq!(runner.handle(Event::TempEmpty), Action::Continue);
    assert_eq!(runner.phase(), Phase::Starting);
    let mut runner = racing(runner);
    assert_eq!(runner.handle(Event::SpawnFailed), Action::Continue);
    assert_eq!(runner.handle(Event::KillFinished(false)), Action::Continue);
    assert_eq!(runner.handle(Event::TempRemoved(false)), Action::Continue);
    assert_eq!(runner.handle(Event::AttributesApplied(Some(TaskError::SetOwner))), Action::Continue);
    assert_eq!(runner.phase(), Phase::Racing);
    assert_eq!(runner.outcome(), Ok(()));
    assert_eq!(runner.handle(line("x has already been downloaded")), Action::Kill);
}

#[test]
fn custom_phrase_replaces_the_sentinel() {
    let mut runner = racing(TaskRunner::with_phrase(&None, &None, "nothing to do"));
    assert_eq!(runner.handle(line("x has already been downloaded")), Action::Continue);
    assert_eq!(runner.handle(line("nothing to do.")), Action::Continue);
    assert_eq!(runner.handle(line("there is nothing to do \n")), Action::Kill);
}

#[test]
fn line_that_ends_with_the_phrase_is_a_sentinel() {
    for before in ["", " ", "[download] file ", "has already been downloaded "] {
        for space in ["", " ", "\n", "\r\n", " \t\u{2028}\u{3000}"] {
            let text = format!("{}{}{}", before, SENTINEL_PHRASE, space);
            assert!(is_sentinel_line(&text));
        }
    }
}
