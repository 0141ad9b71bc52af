use catbox_cli::{upload_files, Error, ErrorKind, Upload, UploadCommand, UploadEvent};

fn paths_named(names: &[&str]) -> Vec<String> {
    names.iter().map(|name| name.to_string()).collect()
}

fn start_of(task: usize, path: &str) -> UploadCommand {
    UploadCommand::Start { task, path: path.to_string() }
}

fn finished_with(task: usize, url: &str) -> UploadEvent {
    UploadEvent::Completed { task, outcome: Ok(url.to_string()) }
}

fn failed_with(task: usize, reason: &str) -> UploadEvent {
    UploadEvent::Completed { task, outcome: Err(reason.to_string()) }
}

fn started_batch(names: &[&str]) -> Upload {
    let (mut upload, command) = upload_files(paths_named(names));
    assert_eq!(command, UploadCommand::Authenticate);
    let mut event = UploadEvent::Session(Ok(()));
    loop {
        let (next, command) = upload.step(event);
        upload = next;
        match command {
            UploadCommand::Start { .. } => event = UploadEvent::Started,
            _ => return upload,
        }
    }
}

#[test]
fn upload_begins_with_authentication() {
    let (upload, command) = upload_files(paths_named(&["a.png"]));
    assert_eq!(command, UploadCommand::Authenticate);
    assert_eq!(upload.in_flight(), 0);
    assert_eq!(upload.into_result(), None);
}

#[test]
fn two_files_both_succeed() {
    let (upload, _) = upload_files(paths_named(&["a.png", "b.png"]));
    let (upload, command) = upload.step(UploadEvent::Session(Ok(())));
    assert_eq!(command, start_of(0, "a.png"));
    let (upload, command) = upload.step(UploadEvent::Started);
    assert_eq!(command, start_of(1, "b.png"));
    let (upload, command) = upload.step(UploadEvent::Started);
    assert_eq!(command, UploadCommand::Await);
    assert_eq!(upload.in_flight(), 2);

    let (upload, command) = upload.step(finished_with(1, "https://files.catbox.moe/bbb.png"));
    assert_eq!(
        command,
        UploadCommand::Print { line: "b.png: https://files.catbox.moe/bbb.png".to_string() }
    );
    let (upload, command) = upload.step(UploadEvent::Printed(Ok(())));
    assert_eq!(command, UploadCommand::Await);
    assert_eq!(upload.in_flight(), 1);

    let (upload, command) = upload.step(finished_with(0, "https://files.catbox.moe/aaa.png"));
    assert_eq!(
        command,
        UploadCommand::Print { line: "a.png: https://files.catbox.moe/aaa.png".to_string() }
    );
    let (upload, command) = upload.step(UploadEvent::Printed(Ok(())));
    assert_eq!(command, UploadCommand::Finish);

    let mut urls = upload.into_result().unwrap().unwrap();
    assert_eq!(
        urls,
        vec![
            "https://files.catbox.moe/bbb.png".to_string(),
            "https://files.catbox.moe/aaa.png".to_string()
        ]
    );
    urls.sort();
    assert_eq!(
        urls,
        vec![
            "https://files.catbox.moe/aaa.png".to_string(),
            "https://files.catbox.moe/bbb.png".to_string()
        ]
    );
}

#[test]
fn one_line_is_printed_per_file() {
    let names = ["a.png", "b.png"];
    let (mut upload, mut command) = upload_files(paths_named(&names));
    let mut running: Vec<usize> = Vec::new();
    let mut printed: Vec<String> = Vec::new();
    loop {
        let event = match command {
            UploadCommand::Authenticate => UploadEvent::Session(Ok(())),
            UploadCommand::Start { task, .. } => {
                running.push(task);
                UploadEvent::Started
            }
            UploadCommand::Await => {
                let task = running.remove(0);
                finished_with(task, &format!("url-{task}"))
            }
            UploadCommand::Print { line } => {
                printed.push(line);
                UploadEvent::Printed(Ok(()))
            }
            UploadCommand::Finish => break,
            UploadCommand::Rejected => panic!("the driver follows the commands"),
        };
        let (next, answer) = upload.step(event);
        upload = next;
        command = answer;
    }
    assert_eq!(printed, vec!["a.png: url-0".to_string(), "b.png: url-1".to_string()]);
    assert_eq!(
        upload.into_result(),
        Some(Ok(vec!["url-0".to_string(), "url-1".to_string()]))
    );
}

#[test]
fn authentication_fails_before_any_upload() {
    let (upload, _) = upload_files(paths_named(&["a.png", "b.png"]));
    let (upload, command) =
        upload.step(UploadEvent::Session(Err("no stored credentials".to_string())));
    assert_eq!(command, UploadCommand::Finish);
    assert_eq!(upload.in_flight(), 0);
    let (upload, command) = upload.step(UploadEvent::Started);
    assert_eq!(command, UploadCommand::Finish);
    assert_eq!(
        upload.into_result(),
        Some(Err(Error {
            kind: ErrorKind::Authentication,
            message: "no stored credentials".to_string()
        }))
    );
}

#[test]
fn one_of_five_uploads_fails() {
    let upload = started_batch(&["a", "b", "c", "d", "e"]);
    assert_eq!(upload.in_flight(), 5);
    let (upload, command) = upload.step(finished_with(4, "url-e"));
    assert_eq!(command, UploadCommand::Print { line: "e: url-e".to_string() });
    let (upload, command) = upload.step(UploadEvent::Printed(Ok(())));
    assert_eq!(command, UploadCommand::Await);

    let (upload, command) = upload.step(failed_with(2, "connection reset"));
    assert_eq!(command, UploadCommand::Finish);
    assert_eq!(upload.in_flight(), 3);

    let (upload, command) = upload.step(finished_with(0, "url-a"));
    assert_eq!(command, UploadCommand::Finish);
    assert_eq!(
        upload.into_result(),
        Some(Err(Error { kind: ErrorKind::Transport, message: "connection reset".to_string() }))
    );
}

#[test]
fn only_the_first_failure_is_reported() {
    let upload = started_batch(&["a", "b"]);
    let (upload, _) = upload.step(failed_with(1, "first"));
    let (upload, command) = upload.step(failed_with(0, "second"));
    assert_eq!(command, UploadCommand::Finish);
    assert_eq!(
        upload.into_result(),
        Some(Err(Error { kind: ErrorKind::Transport, message: "first".to_string() }))
    );
}

#[test]
fn nothing_starts_after_a_failure() {
    let upload = started_batch(&["a", "b", "c", "d", "e", "f", "g"]);
    assert_eq!(upload.in_flight(), 5);
    let (upload, command) = upload.step(failed_with(0, "boom"));
    assert_eq!(command, UploadCommand::Finish);
    let (upload, command) = upload.step(UploadEvent::Started);
    assert_eq!(command, UploadCommand::Finish);
    assert_eq!(upload.in_flight(), 4);
}

#[test]
fn output_failure_ends_the_batch() {
    let upload = started_batch(&["a", "b"]);
    let (upload, command) = upload.step(finished_with(0, "url-a"));
    assert_eq!(command, UploadCommand::Print { line: "a: url-a".to_string() });
    let (upload, command) = upload.step(UploadEvent::Printed(Err("broken pipe".to_string())));
    assert_eq!(command, UploadCommand::Finish);
    assert_eq!(upload.in_flight(), 1);
    assert_eq!(
        upload.into_result(),
        Some(Err(Error { kind: ErrorKind::Io, message: "broken pipe".to_string() }))
    );
}

#[test]
fn slot_is_held_until_the_line_is_printed() {
    let upload = started_batch(&["a", "b", "c", "d", "e", "f"]);
    assert_eq!(upload.in_flight(), 5);
    let (upload, command) = upload.step(finished_with(3, "url-d"));
    assert_eq!(command, UploadCommand::Print { line: "d: url-d".to_string() });
    assert_eq!(upload.in_flight(), 5);
    let (upload, command) = upload.step(UploadEvent::Printed(Ok(())));
    assert_eq!(command, start_of(5, "f"));
    assert_eq!(upload.in_flight(), 5);
}

#[test]
fn upload_never_exceeds_the_ceiling() {
    let names: Vec<String> = (0..17).map(|i| format!("file-{i}.bin")).collect();
    let (mut upload, mut command) = upload_files(names.clone());
    let mut running: Vec<usize> = Vec::new();
    let mut peak = 0;
    let mut rounds = 0;
    loop {
        assert!(upload.in_flight() <= 5);
        assert!(running.len() <= 5);
        peak = peak.max(upload.in_flight());
        let event = match command {
            UploadCommand::Authenticate => UploadEvent::Session(Ok(())),
            UploadCommand::Start { task, path } => {
                assert_eq!(path, names[task]);
                running.push(task);
                UploadEvent::Started
            }
            UploadCommand::Await => {
                rounds += 1;
                let task = running.remove((rounds * 3) % running.len());
                finished_with(task, &format!("url-{task}"))
            }
            UploadCommand::Print { .. } => UploadEvent::Printed(Ok(())),
            UploadCommand::Finish => break,
            UploadCommand::Rejected => panic!("the driver follows the commands"),
        };
        let (next, answer) = upload.step(event);
        upload = next;
        command = answer;
    }
    assert_eq!(peak, 5);
    let mut urls = upload.into_result().unwrap().unwrap();
    assert_eq!(urls.len(), 17);
    urls.sort();
    urls.dedup();
    assert_eq!(urls.len(), 17);
}

#[test]
fn empty_batch_finishes_right_after_authentication() {
    let (upload, _) = upload_files(Vec::new());
    let (upload, command) = upload.step(UploadEvent::Session(Ok(())));
    assert_eq!(command, UploadCommand::Finish);
    assert_eq!(upload.into_result(), Some(Ok(Vec::new())));
}

#[test]
fn events_out_of_turn_are_rejected() {
    let (upload, _) = upload_files(paths_named(&["a", "b"]));
    let (upload, command) = upload.step(UploadEvent::Started);
    assert_eq!(command, UploadCommand::Rejected);
    let (upload, command) = upload.step(finished_with(0, "url"));
    assert_eq!(command, UploadCommand::Rejected);
    let (upload, command) = upload.step(UploadEvent::Session(Ok(())));
    assert_eq!(command, start_of(0, "a"));
    let (upload, command) = upload.step(UploadEvent::Printed(Ok(())));
    assert_eq!(command, UploadCommand::Rejected);
    let (upload, command) = upload.step(UploadEvent::Started);
    assert_eq!(command, start_of(1, "b"));
    let (upload, command) = upload.step(UploadEvent::Started);
    assert_eq!(command, UploadCommand::Await);
    let (upload, command) = upload.step(UploadEvent::Session(Ok(())));
    assert_eq!(command, UploadCommand::Rejected);
    assert_eq!(upload.in_flight(), 2);
    assert_eq!(upload.into_result(), None);
}

#[test]
fn completion_of_a_task_not_in_flight_is_rejected() {
    let upload = started_batch(&["a", "b"]);
    let (upload, command) = upload.step(finished_with(2, "url"));
    assert_eq!(command, UploadCommand::Rejected);
    let (upload, _) = upload.step(finished_with(0, "url-a"));
    let (upload, command) = upload.step(UploadEvent::Printed(Ok(())));
    assert_eq!(command, UploadCommand::Await);
    let (upload, command) = upload.step(finished_with(0, "again"));
    assert_eq!(command, UploadCommand::Rejected);
    assert_eq!(upload.in_flight(), 1);
}

#[test]
fn error_description_names_the_kind() {
    let error = Error::new(ErrorKind::Transport, "connection reset".to_string());
    assert_eq!(error.describe(), "request failed: connection reset");
    let error = Error::new(ErrorKind::Authentication, "no entry".to_string());
    assert_eq!(error.describe(), "authentication failed: no entry");
    let error = Error::new(ErrorKind::Normalization, "empty host".to_string());
    assert_eq!(error.describe(), "invalid reference: empty host");
    let error = Error::new(ErrorKind::Io, "broken pipe".to_string());
    assert_eq!(error.describe(), "output failed: broken pipe");
}
