use filerpc::{Action, Code, Event, MyFileService, PathLocks, SessionState, TransferChunk, UploadSession};

fn chunk(filename: &str, target_dir: &str, data: &[u8], eof: bool) -> TransferChunk {
    TransferChunk {
        filename: filename.to_string(),
        target_dir: target_dir.to_string(),
        data: data.to_vec(),
        eof,
    }
}

/// Drives a session over an in-memory disk: `Ok` bytes written, or the failure.
struct Run {
    outcome: Result<u64, Code>,
    file: Option<String>,
    dir: Option<String>,
    bytes: Vec<u8>,
    released: Vec<String>,
    discarded: Vec<String>,
}

fn resolved(existing: &str, missing: &str) -> Event {
    Event::Resolved {
        canonical_root: Some("/srv".to_string()),
        canonical_existing: Some(existing.to_string()),
        missing: missing.to_string(),
    }
}

/// A disk on which only the root `/srv` exists.
fn bare_root(file: &str) -> Event {
    resolved("/srv", file.strip_prefix("/srv/").unwrap())
}

fn drive(session: &mut UploadSession, locks: &PathLocks, chunks: Vec<TransferChunk>, fail_create: bool) -> Run {
    drive_on(session, locks, chunks, fail_create, &bare_root)
}

fn drive_on(
    session: &mut UploadSession,
    locks: &PathLocks,
    chunks: Vec<TransferChunk>,
    fail_create: bool,
    resolve: &dyn Fn(&str) -> Event,
) -> Run {
    let mut stream = chunks.into_iter();
    let mut run = Run { outcome: Err(Code::Internal), file: None, dir: None, bytes: Vec::new(), released: Vec::new(), discarded: Vec::new() };
    let mut ev = match stream.next() {
        Some(c) => Event::Chunk(c),
        None => Event::StreamClosed,
    };
    loop {
        match session.step(ev) {
            Action::Resolve { file } => {
                ev = resolve(&file);
            }
            Action::AcquireLock { key } => {
                let acquired = locks.try_acquire(&key);
                ev = Event::Lock { acquired };
            }
            Action::Create { dir, file } => {
                run.dir = Some(dir);
                run.file = Some(file);
                ev = Event::Created(if fail_create { Err("disk full".to_string()) } else { Ok(()) });
            }
            Action::Write { data } => {
                run.bytes.extend_from_slice(&data);
                ev = Event::Wrote(Ok(()));
            }
            Action::Receive => {
                ev = match stream.next() {
                    Some(c) => Event::Chunk(c),
                    None => Event::StreamClosed,
                };
            }
            Action::Finish { release, discard, outcome } => {
                if let Some(k) = release {
                    assert!(locks.release(&k));
                    run.released.push(k);
                }
                if let Some(d) = discard {
                    run.discarded.push(d);
                }
                run.outcome = outcome.map_err(|s| s.code);
                assert!(matches!(session.step(Event::StreamClosed), Action::Idle));
                return run;
            }
            Action::Idle => unreachable!(),
        }
    }
}

#[test]
fn upload_round_trip_keeps_every_byte() {
    let svc = MyFileService::new("/srv".to_string());
    let data: Vec<u8> = (0..150u32).map(|i| (i * 7 % 256) as u8).collect();
    let chunks = vec![
        chunk("a.bin", "/in", &data[..64], false),
        chunk("", "", &data[64..128], false),
        chunk("", "", &data[128..], true),
    ];
    let mut s = svc.start_upload();
    let run = drive(&mut s, svc.locks(), chunks, false);
    assert_eq!(run.outcome, Ok(150));
    assert_eq!(run.bytes, data);
    assert_eq!(run.file.as_deref(), Some("/srv/in/a.bin"));
    assert_eq!(run.dir.as_deref(), Some("/srv/in"));
    assert_eq!(run.released, vec!["/srv/in/a.bin".to_string()]);
    assert!(run.discarded.is_empty());
    assert!(matches!(s.state, SessionState::Completed { written: 150 }));
    assert!(s.is_finished());
}

#[test]
fn zero_byte_upload_creates_an_empty_file() {
    let locks = PathLocks::new();
    let mut s = UploadSession::new("/srv".to_string());
    let run = drive(&mut s, &locks, vec![chunk("empty.txt", "", &[], true)], false);
    assert_eq!(run.outcome, Ok(0));
    assert_eq!(run.file.as_deref(), Some("/srv/empty.txt"));
    assert!(run.bytes.is_empty());
}

#[test]
fn empty_filename_is_invalid_before_touching_disk() {
    let locks = PathLocks::new();
    let mut s = UploadSession::new("/srv".to_string());
    let run = drive(&mut s, &locks, vec![chunk("", "d", b"x", true)], false);
    assert_eq!(run.outcome, Err(Code::InvalidArgument));
    assert!(run.file.is_none());
    assert!(run.released.is_empty());
}

#[test]
fn nested_target_dir_is_created_as_a_chain() {
    let locks = PathLocks::new();
    let mut s = UploadSession::new("/srv".to_string());
    let run = drive(&mut s, &locks, vec![chunk("f", "a/b/c", b"hi", true)], false);
    assert_eq!(run.outcome, Ok(2));
    assert_eq!(run.dir.as_deref(), Some("/srv/a/b/c"));
    assert_eq!(run.file.as_deref(), Some("/srv/a/b/c/f"));
}

#[test]
fn parent_component_in_missing_part_is_denied() {
    let locks = PathLocks::new();
    let mut s = UploadSession::new("/srv".to_string());
    let run = drive(&mut s, &locks, vec![chunk("f", "../../etc", b"x", true)], false);
    assert_eq!(run.outcome, Err(Code::PermissionDenied));
    assert!(run.file.is_none());
    let mut s = UploadSession::new("/srv".to_string());
    let run = drive(&mut s, &locks, vec![chunk("..", "", b"x", true)], false);
    assert_eq!(run.outcome, Err(Code::PermissionDenied));
}

#[test]
fn stream_without_chunks_is_internal() {
    let locks = PathLocks::new();
    let mut s = UploadSession::new("/srv".to_string());
    let run = drive(&mut s, &locks, vec![], false);
    assert_eq!(run.outcome, Err(Code::Internal));
    assert!(run.released.is_empty());
}

#[test]
fn stream_cut_before_eof_is_aborted_and_discarded() {
    let locks = PathLocks::new();
    let mut s = UploadSession::new("/srv".to_string());
    let run = drive(&mut s, &locks, vec![chunk("f", "", b"part", false)], false);
    assert_eq!(run.outcome, Err(Code::Aborted));
    assert_eq!(run.released, vec!["/srv/f".to_string()]);
    assert_eq!(run.discarded, vec!["/srv/f".to_string()]);
    assert!(locks.try_acquire("/srv/f"));
}

#[test]
fn failed_creation_is_internal_and_releases() {
    let locks = PathLocks::new();
    let mut s = UploadSession::new("/srv".to_string());
    let run = drive(&mut s, &locks, vec![chunk("f", "", b"x", true)], true);
    assert_eq!(run.outcome, Err(Code::Internal));
    assert_eq!(run.released, vec!["/srv/f".to_string()]);
    assert!(run.discarded.is_empty());
}

#[test]
fn failed_write_is_internal_releases_and_discards() {
    let mut s = UploadSession::new("/srv".to_string());
    assert!(matches!(s.step(Event::Chunk(chunk("f", "", b"x", true))), Action::Resolve { .. }));
    assert!(matches!(s.step(resolved("/srv/real/f", "")), Action::AcquireLock { .. }));
    assert!(matches!(s.step(Event::Lock { acquired: true }), Action::Create { .. }));
    assert!(matches!(s.step(Event::Created(Ok(()))), Action::Write { .. }));
    match s.step(Event::Wrote(Err("io".to_string()))) {
        Action::Finish { release, discard, outcome } => {
            assert_eq!(release.as_deref(), Some("/srv/real/f"));
            assert_eq!(discard.as_deref(), Some("/srv/f"));
            let e = outcome.unwrap_err();
            assert_eq!(e.code(), Code::Internal);
            assert_eq!(e.message, "io");
        }
        _ => panic!("expected the session to finish"),
    }
}

#[test]
fn transport_failure_mid_stream_is_aborted() {
    let mut s = UploadSession::new("/srv".to_string());
    s.step(Event::Chunk(chunk("f", "", b"x", false)));
    s.step(resolved("/srv", "f"));
    s.step(Event::Lock { acquired: true });
    s.step(Event::Created(Ok(())));
    assert!(matches!(s.step(Event::Wrote(Ok(()))), Action::Receive));
    match s.step(Event::StreamFailed) {
        Action::Finish { release, discard, outcome } => {
            assert_eq!(release.as_deref(), Some("/srv/f"));
            assert_eq!(discard.as_deref(), Some("/srv/f"));
            assert_eq!(outcome.unwrap_err().code, Code::Aborted);
        }
        _ => panic!("expected the session to finish"),
    }
    assert!(matches!(s.state, SessionState::Failed { code: Code::Aborted }));
}

#[test]
fn same_path_second_upload_is_unavailable_then_retry_succeeds() {
    let svc = MyFileService::new("/srv".to_string());
    let mut first = svc.start_upload();
    assert!(matches!(first.step(Event::Chunk(chunk("f", "d", b"one", true))), Action::Resolve { .. }));
    match first.step(resolved("/srv", "d/f")) {
        Action::AcquireLock { key } => {
            assert_eq!(key, "/srv/d/f");
            assert!(svc.locks().try_acquire(&key));
        }
        _ => panic!("expected a lock request"),
    }
    first.step(Event::Lock { acquired: true });

    let mut second = svc.start_upload();
    let run = drive(&mut second, svc.locks(), vec![chunk("f", "d", b"two", true)], false);
    assert_eq!(run.outcome, Err(Code::Unavailable));
    assert!(run.file.is_none());
    assert!(run.released.is_empty());

    first.step(Event::Created(Ok(())));
    match first.step(Event::Wrote(Ok(()))) {
        Action::Finish { release, outcome, .. } => {
            assert_eq!(outcome.unwrap(), 3);
            assert!(svc.locks().release(&release.unwrap()));
        }
        _ => panic!("expected the first upload to finish"),
    }

    let mut retry = svc.start_upload();
    let run = drive(&mut retry, svc.locks(), vec![chunk("f", "d", b"two", true)], false);
    assert_eq!(run.outcome, Ok(3));
}

#[test]
fn different_paths_do_not_block_each_other() {
    let svc = MyFileService::new("/srv".to_string());
    assert!(svc.locks().try_acquire("/srv/a"));
    let mut s = svc.start_upload();
    let run = drive(&mut s, svc.locks(), vec![chunk("b", "", b"bb", true)], false);
    assert_eq!(run.outcome, Ok(2));
    assert!(svc.locks().release("/srv/a"));
}

#[test]
fn lock_registry_grants_one_holder_per_key() {
    let locks = PathLocks::new();
    assert!(locks.try_acquire("/srv/x"));
    assert!(!locks.try_acquire("/srv/x"));
    assert!(locks.try_acquire("/srv/y"));
    assert!(locks.release("/srv/x"));
    assert!(!locks.release("/srv/x"));
    assert!(locks.try_acquire("/srv/x"));
}

#[test]
fn finished_session_stays_put() {
    let mut s = UploadSession::new("/srv".to_string());
    s.step(Event::StreamClosed);
    assert!(matches!(s.step(Event::Chunk(chunk("f", "", b"", true))), Action::Idle));
    assert!(matches!(s.state, SessionState::Failed { code: Code::Internal }));
}

#[test]
fn out_of_order_event_fails_the_session() {
    let mut s = UploadSession::new("/srv".to_string());
    match s.step(Event::Wrote(Ok(()))) {
        Action::Finish { release, discard, outcome } => {
            assert!(release.is_none());
            assert!(discard.is_none());
            assert_eq!(outcome.unwrap_err().code, Code::Internal);
        }
        _ => panic!("expected the session to finish"),
    }
}

#[test]
fn symlink_out_of_root_is_denied() {
    // `/srv/link` is a symbolic link to `/etc`
    let locks = PathLocks::new();
    let mut s = UploadSession::new("/srv".to_string());
    let run = drive_on(&mut s, &locks, vec![chunk("f", "link", b"x", true)], false, &|_: &str| {
        resolved("/etc", "f")
    });
    assert_eq!(run.outcome, Err(Code::PermissionDenied));
    assert!(run.file.is_none());
    assert!(run.released.is_empty());
}

#[test]
fn existing_parent_that_resolves_above_root_is_denied() {
    let locks = PathLocks::new();
    let mut s = UploadSession::new("/srv".to_string());
    let run = drive_on(&mut s, &locks, vec![chunk("f", "..", b"x", true)], false, &|_: &str| {
        resolved("/", "f")
    });
    assert_eq!(run.outcome, Err(Code::PermissionDenied));
}

#[test]
fn parent_step_that_resolves_inside_root_is_accepted() {
    // `/srv/a/../b` exists and canonicalizes to `/srv/b`
    let locks = PathLocks::new();
    let mut s = UploadSession::new("/srv".to_string());
    let run = drive_on(&mut s, &locks, vec![chunk("f", "a/../b", b"abc", true)], false, &|file: &str| {
        assert_eq!(file, "/srv/a/../b/f");
        resolved("/srv/b", "f")
    });
    assert_eq!(run.outcome, Ok(3));
    assert_eq!(run.dir.as_deref(), Some("/srv/a/../b"));
    assert_eq!(run.released, vec!["/srv/b/f".to_string()]);
}

#[test]
fn existing_file_is_locked_by_its_canonical_path() {
    let locks = PathLocks::new();
    let mut s = UploadSession::new("/srv".to_string());
    let run = drive_on(&mut s, &locks, vec![chunk("f", "alias", b"", true)], false, &|_: &str| {
        resolved("/srv/real/f", "")
    });
    assert_eq!(run.outcome, Ok(0));
    assert_eq!(run.released, vec!["/srv/real/f".to_string()]);
}

#[test]
fn unresolvable_root_is_internal_and_unresolvable_target_not_found() {
    let mut s = UploadSession::new("/srv".to_string());
    s.step(Event::Chunk(chunk("f", "", b"", true)));
    let ev = Event::Resolved { canonical_root: None, canonical_existing: Some("/srv".to_string()), missing: "f".to_string() };
    match s.step(ev) {
        Action::Finish { release, outcome, .. } => {
            assert!(release.is_none());
            assert_eq!(outcome.unwrap_err().code, Code::Internal);
        }
        _ => panic!("expected the session to finish"),
    }
    let mut s = UploadSession::new("/srv".to_string());
    s.step(Event::Chunk(chunk("f", "", b"", true)));
    let ev = Event::Resolved { canonical_root: Some("/srv".to_string()), canonical_existing: None, missing: String::new() };
    match s.step(ev) {
        Action::Finish { outcome, .. } => assert_eq!(outcome.unwrap_err().code, Code::NotFound),
        _ => panic!("expected the session to finish"),
    }
}
