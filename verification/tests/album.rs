use catbox_cli::{add_to_album, AddToAlbum, AlbumCommand, AlbumEvent, Error, ErrorKind};

fn files_named(names: &[&str]) -> Vec<String> {
    names.iter().map(|name| name.to_string()).collect()
}

fn addition_of(task: usize, album: &str, file: &str) -> AlbumCommand {
    AlbumCommand::Start {
        task,
        album: album.to_string(),
        file: file.to_string(),
        label: format!("Uploading '{file}' to album"),
    }
}

fn added(task: usize) -> AlbumEvent {
    AlbumEvent::Completed { task, outcome: Ok(()) }
}

fn not_added(task: usize, reason: &str) -> AlbumEvent {
    AlbumEvent::Completed { task, outcome: Err(reason.to_string()) }
}

fn started_additions(album: &str, names: &[&str]) -> AddToAlbum {
    let (mut batch, command) = add_to_album(album, files_named(names));
    assert_eq!(command, AlbumCommand::Authenticate);
    let mut event = AlbumEvent::Session(Ok(()));
    loop {
        let (next, command) = batch.step(event);
        batch = next;
        match command {
            AlbumCommand::Start { .. } => event = AlbumEvent::Started,
            _ => return batch,
        }
    }
}

#[test]
fn url_and_bare_code_are_added_to_the_album() {
    let (batch, command) =
        add_to_album("myalbum", files_named(&["https://files.catbox.moe/xyz123.png", "abc456"]));
    assert_eq!(command, AlbumCommand::Authenticate);
    let (batch, command) = batch.step(AlbumEvent::Session(Ok(())));
    assert_eq!(command, addition_of(0, "https://catbox.moe/c/myalbum", "xyz123.png"));
    let (batch, command) = batch.step(AlbumEvent::Started);
    assert_eq!(command, addition_of(1, "https://catbox.moe/c/myalbum", "abc456"));
    let (batch, command) = batch.step(AlbumEvent::Started);
    assert_eq!(command, AlbumCommand::Await);
    assert_eq!(batch.in_flight(), 2);

    let (batch, command) = batch.step(added(0));
    assert_eq!(command, AlbumCommand::Clear { task: 0 });
    let (batch, command) = batch.step(AlbumEvent::Cleared);
    assert_eq!(command, AlbumCommand::Await);
    let (batch, command) = batch.step(added(1));
    assert_eq!(command, AlbumCommand::Clear { task: 1 });
    let (batch, command) = batch.step(AlbumEvent::Cleared);
    assert_eq!(command, AlbumCommand::Finish);
    assert_eq!(batch.into_result(), Some(Ok(())));
}

#[test]
fn url_without_extension_and_bare_code() {
    let (batch, _) =
        add_to_album("myalbum", files_named(&["https://files.catbox.moe/xyz123", "abc456"]));
    let (batch, command) = batch.step(AlbumEvent::Session(Ok(())));
    assert_eq!(command, addition_of(0, "https://catbox.moe/c/myalbum", "xyz123"));
    let (_, command) = batch.step(AlbumEvent::Started);
    assert_eq!(command, addition_of(1, "https://catbox.moe/c/myalbum", "abc456"));
}

#[test]
fn spinner_label_names_the_file() {
    let (batch, _) = add_to_album("https://catbox.moe/c/pg3mk8", files_named(&["cat.gif"]));
    let (_, command) = batch.step(AlbumEvent::Session(Ok(())));
    assert_eq!(
        command,
        AlbumCommand::Start {
            task: 0,
            album: "https://catbox.moe/c/pg3mk8".to_string(),
            file: "cat.gif".to_string(),
            label: "Uploading 'cat.gif' to album".to_string(),
        }
    );
}

#[test]
fn files_that_do_not_normalize_are_skipped() {
    let (batch, _) = add_to_album(
        "myalbum",
        files_named(&["files.catbox.moe/broken.png", "good.png", "mailto:x@files.catbox.moe"]),
    );
    let (batch, command) = batch.step(AlbumEvent::Session(Ok(())));
    assert_eq!(command, addition_of(0, "https://catbox.moe/c/myalbum", "good.png"));
    let (batch, command) = batch.step(AlbumEvent::Started);
    assert_eq!(command, AlbumCommand::Await);
    let (batch, _) = batch.step(added(0));
    let (batch, command) = batch.step(AlbumEvent::Cleared);
    assert_eq!(command, AlbumCommand::Finish);
    assert_eq!(batch.into_result(), Some(Ok(())));
}

#[test]
fn album_authentication_failure_comes_first() {
    let (batch, _) = add_to_album("catbox.moe/not-a-url", files_named(&["a.png"]));
    let (batch, command) = batch.step(AlbumEvent::Session(Err("rejected".to_string())));
    assert_eq!(command, AlbumCommand::Finish);
    assert_eq!(batch.in_flight(), 0);
    assert_eq!(
        batch.into_result(),
        Some(Err(Error { kind: ErrorKind::Authentication, message: "rejected".to_string() }))
    );
}

#[test]
fn album_that_does_not_normalize_ends_the_batch() {
    let (batch, command) = add_to_album("catbox.moe/not-a-url", files_named(&["a.png", "b.png"]));
    assert_eq!(command, AlbumCommand::Authenticate);
    let (batch, command) = batch.step(AlbumEvent::Session(Ok(())));
    assert_eq!(command, AlbumCommand::Finish);
    assert_eq!(batch.in_flight(), 0);
    assert_eq!(
        batch.into_result(),
        Some(Err(Error {
            kind: ErrorKind::Normalization,
            message: "relative URL without a base".to_string()
        }))
    );
}

#[test]
fn spinner_is_cleared_before_a_failure_ends_the_batch() {
    let batch = started_additions("myalbum", &["a", "b", "c"]);
    assert_eq!(batch.in_flight(), 3);
    let (batch, command) = batch.step(not_added(1, "album is full"));
    assert_eq!(command, AlbumCommand::Clear { task: 1 });
    assert_eq!(batch.in_flight(), 3);
    assert_eq!(batch.into_result(), None);

    let batch = started_additions("myalbum", &["a", "b", "c"]);
    let (batch, _) = batch.step(not_added(1, "album is full"));
    let (batch, command) = batch.step(AlbumEvent::Cleared);
    assert_eq!(command, AlbumCommand::Finish);
    assert_eq!(batch.in_flight(), 2);
    let (batch, command) = batch.step(added(0));
    assert_eq!(command, AlbumCommand::Finish);
    assert_eq!(
        batch.into_result(),
        Some(Err(Error { kind: ErrorKind::Transport, message: "album is full".to_string() }))
    );
}

#[test]
fn additions_never_exceed_the_ceiling() {
    let names: Vec<String> = (0..13).map(|i| format!("file{i}.png")).collect();
    let (mut batch, mut command) = add_to_album("myalbum", names);
    let mut running: Vec<usize> = Vec::new();
    let mut spinners: Vec<usize> = Vec::new();
    let mut peak = 0;
    loop {
        assert!(batch.in_flight() <= 5);
        assert!(spinners.len() <= 5);
        peak = peak.max(batch.in_flight());
        let event = match command {
            AlbumCommand::Authenticate => AlbumEvent::Session(Ok(())),
            AlbumCommand::Start { task, .. } => {
                running.push(task);
                spinners.push(task);
                AlbumEvent::Started
            }
            AlbumCommand::Await => added(running.pop().unwrap()),
            AlbumCommand::Clear { task } => {
                spinners.retain(|spinner| *spinner != task);
                AlbumEvent::Cleared
            }
            AlbumCommand::Finish => break,
            AlbumCommand::Rejected => panic!("the driver follows the commands"),
        };
        let (next, answer) = batch.step(event);
        batch = next;
        command = answer;
    }
    assert_eq!(peak, 5);
    assert!(spinners.is_empty());
    assert_eq!(batch.into_result(), Some(Ok(())));
}

#[test]
fn album_events_out_of_turn_are_rejected() {
    let (batch, _) = add_to_album("myalbum", files_named(&["a"]));
    let (batch, command) = batch.step(AlbumEvent::Cleared);
    assert_eq!(command, AlbumCommand::Rejected);
    let (batch, command) = batch.step(AlbumEvent::Session(Ok(())));
    assert_eq!(command, addition_of(0, "https://catbox.moe/c/myalbum", "a"));
    let (batch, command) = batch.step(added(0));
    assert_eq!(command, AlbumCommand::Rejected);
    let (batch, command) = batch.step(AlbumEvent::Started);
    assert_eq!(command, AlbumCommand::Await);
    let (batch, command) = batch.step(added(7));
    assert_eq!(command, AlbumCommand::Rejected);
    let (batch, command) = batch.step(added(0));
    assert_eq!(command, AlbumCommand::Clear { task: 0 });
    let (batch, command) = batch.step(AlbumEvent::Started);
    assert_eq!(command, AlbumCommand::Rejected);
    assert_eq!(batch.in_flight(), 1);
}

#[test]
fn empty_addition_finishes_right_after_authentication() {
    let (batch, _) = add_to_album("myalbum", Vec::new());
    let (batch, command) = batch.step(AlbumEvent::Session(Ok(())));
    assert_eq!(command, AlbumCommand::Finish);
    assert_eq!(batch.into_result(), Some(Ok(())));
}
