//! Scenario tests of the boundary protocol: handle lifecycle after close,
//! request building with validation, reply transcoding, round trips through
//! a simulated engine store, and the task execution model.

use zbox_boundary::config::{OptEntry, OptValue};
use zbox_boundary::errors::FsError;
use zbox_boundary::executor::Executor;
use zbox_boundary::file::FileWrapper;
use zbox_boundary::handles::HandleTable;
use zbox_boundary::protocol::{
    accept_bytes, accept_count, accept_entries, accept_flag, accept_hist, accept_info,
    accept_meta, accept_num, accept_pos, accept_unit, open_repo_request, read_accept,
    EngineReply, FileCall, RepoCall, VrCall,
};
use zbox_boundary::records::{DirEntryRec, MetadataRec, RepoInfoRec, VersionRec};
use zbox_boundary::repo::{open_file_call, RepoWrapper};
use zbox_boundary::seek::SeekPos;
use zbox_boundary::tasks::{
    finish_file_task, finish_repo_task, Completion, TaskOutcome,
};
use zbox_boundary::vreader::VersionReaderWrapper;

fn entry(key: &str, value: OptValue) -> OptEntry {
    OptEntry {
        key: String::from(key),
        value,
    }
}

fn file_meta(len: usize) -> MetadataRec {
    MetadataRec {
        file_type: String::from("File"),
        content_len: len,
        curr_version: 1,
        created_at: 10,
        modified_at: 20,
    }
}

fn dir_meta() -> MetadataRec {
    MetadataRec {
        file_type: String::from("Dir"),
        content_len: 0,
        curr_version: 1,
        created_at: 10,
        modified_at: 10,
    }
}

fn fault(code: i32, desc: &str) -> EngineReply {
    EngineReply::Fault {
        code,
        desc: String::from(desc),
    }
}

#[test]
fn closed_repo_rejects_every_request_and_close_is_idempotent() {
    let mut repo = RepoWrapper::new(7);
    assert!(!repo.is_closed());
    let req = repo
        .begin(RepoCall::PathExists {
            path: String::from("/x"),
        })
        .unwrap();
    assert_eq!(req.target, 7);

    assert_eq!(repo.close(), Some(7));
    assert!(repo.is_closed());
    assert_eq!(repo.close(), None); // closing twice never fails
    assert_eq!(repo.close(), None);

    let calls = vec![
        RepoCall::Info,
        RepoCall::PathExists {
            path: String::from("/"),
        },
        RepoCall::CreateFile {
            path: String::from("/y"),
        },
        RepoCall::ReadDir {
            path: String::from("/"),
        },
        RepoCall::RemoveFile {
            path: String::from("/y"),
        },
        RepoCall::Rename {
            from: String::from("/a"),
            to: String::from("/b"),
        },
    ];
    for call in calls {
        match repo.begin(call) {
            Err(e) => assert_eq!(e.message(), "ZboxFS(-1027): Repo is closed"),
            Ok(_) => panic!("a closed repository must reject every request"),
        }
    }
    let held = RepoCall::IsDir {
        path: String::from("/"),
    };
    assert_eq!(repo.begin_ref(&held).err(), Some(FsError::RepoClosed));
}

#[test]
fn closed_file_rejects_every_request_and_close_is_idempotent() {
    let mut file = FileWrapper::new(3);
    assert!(!file.is_closed());
    assert_eq!(file.close(), Some(3));
    assert_eq!(file.close(), None); // closing twice never fails
    assert!(file.is_closed());

    assert_eq!(file.begin(FileCall::Finish).err(), Some(FsError::Closed));
    assert_eq!(
        file.begin(FileCall::CurrVersion).err(),
        Some(FsError::Closed)
    );
    assert_eq!(file.read_request(8, 0, 4).err(), Some(FsError::Closed));
    let buf = vec![1u8, 2, 3, 4];
    assert_eq!(file.write_request(&buf, 0, 4).err(), Some(FsError::Closed));
    assert_eq!(
        file.write_once_request(&buf, 0, 4).err(),
        Some(FsError::Closed)
    );
    assert_eq!(file.seek_request(0, 0).err(), Some(FsError::Closed));
    match file.begin(FileCall::Metadata) {
        Err(e) => assert_eq!(e.message(), "ZboxFS(-1075): File is closed"),
        Ok(_) => panic!("a closed file must reject every request"),
    }
}

#[test]
fn closed_reader_rejects_every_request_and_close_is_idempotent() {
    let mut rdr = VersionReaderWrapper::new(11);
    let req = rdr.begin(VrCall::ReadAll).unwrap();
    assert_eq!(req.target, 11);
    assert_eq!(rdr.close(), Some(11));
    assert_eq!(rdr.close(), None); // closing twice never fails
    assert_eq!(rdr.begin(VrCall::ReadAll).err(), Some(FsError::Closed));
    assert_eq!(rdr.read_request(4, 0, 2).err(), Some(FsError::Closed));
    assert_eq!(rdr.seek_request(0, 1).err(), Some(FsError::Closed));
}

#[test]
fn open_repo_request_parses_the_option_set() {
    let opts = vec![
        entry("create", OptValue::Flag(true)),
        entry("createNew", OptValue::Flag(true)),
        entry("versionLimit", OptValue::Num(4)),
        entry("colour", OptValue::Flag(true)),
        entry("readOnly", OptValue::Num(1)),
    ];
    let req = open_repo_request("mem://scen", "pwd", &opts);
    assert_eq!(req.uri, "mem://scen");
    assert_eq!(req.pwd, "pwd");
    assert_eq!(req.cfg.create, Some(true));
    assert_eq!(req.cfg.create_new, Some(true));
    assert_eq!(req.cfg.version_limit, Some(4));
    assert_eq!(req.cfg.read_only, None); // mistyped counts as absent
    assert_eq!(req.cfg.force, None);
}

#[test]
fn open_file_call_parses_the_option_set() {
    let opts = vec![
        entry("read", OptValue::Flag(true)),
        entry("write", OptValue::Flag(false)),
        entry("versionLimit", OptValue::Num(2)),
    ];
    match open_file_call("/f", &opts) {
        RepoCall::OpenFile { path, cfg } => {
            assert_eq!(path, "/f");
            assert_eq!(cfg.read, Some(true));
            assert_eq!(cfg.write, Some(false));
            assert_eq!(cfg.version_limit, Some(2));
            assert_eq!(cfg.append, None);
        }
        other => panic!("an unexpected call shape: {:?}", other),
    }
}

#[test]
fn repo_transfer_succeeds_once_and_faults_render_verbatim() {
    let repo = RepoWrapper::from_reply(EngineReply::Handle(42)).unwrap();
    assert!(!repo.is_closed());
    let req = repo.begin(RepoCall::Info).unwrap();
    assert_eq!(req.target, 42);
    assert_eq!(req.call, RepoCall::Info);

    // The engine's already-exists refusal keeps its code and wording.
    match RepoWrapper::from_reply(fault(-1028, "Repo already exists")) {
        Err(e) => {
            assert_eq!(e.code(), -1028);
            assert_eq!(e.message(), "ZboxFS(-1028): Repo already exists");
        }
        Ok(_) => panic!("a fault cannot yield a repository"),
    }
    // A reply of the wrong shape is the adapter's rejection.
    assert_eq!(
        RepoWrapper::from_reply(EngineReply::Flag(true)).err(),
        Some(FsError::InvalidArgument)
    );
}

#[test]
fn write_request_carries_exactly_the_region() {
    let file = FileWrapper::new(1);
    let buf: Vec<u8> = vec![10, 11, 12, 13, 14, 15, 16, 17];
    let req = file.write_request(&buf, 2, 3).unwrap();
    assert_eq!(req.target, 1);
    match req.call {
        FileCall::Write { bytes } => assert_eq!(bytes, vec![12, 13, 14]),
        other => panic!("an unexpected call shape: {:?}", other),
    }
    match file.write_once_request(&buf, 5, 3).unwrap().call {
        FileCall::WriteOnce { bytes } => assert_eq!(bytes, vec![15, 16, 17]),
        other => panic!("an unexpected call shape: {:?}", other),
    }
    // A region outside the buffer is rejected before any request is formed.
    assert_eq!(
        file.write_request(&buf, 6, 3).err(),
        Some(FsError::InvalidArgument)
    );
    assert_eq!(
        file.write_request(&buf, 9, 0).err(),
        Some(FsError::InvalidArgument)
    );
    assert_eq!(
        file.write_once_request(&buf, 0, 9).err(),
        Some(FsError::InvalidArgument)
    );
}

#[test]
fn write_then_read_round_trip_through_a_simulated_store() {
    let file = FileWrapper::new(5);
    let payload: Vec<u8> = (0u8..=200).collect();

    // The write request hands the engine exactly the caller's bytes.
    let wreq = file.write_request(&payload, 0, payload.len()).unwrap();
    let stored: Vec<u8> = match wreq.call {
        FileCall::Write { bytes } => bytes,
        other => panic!("an unexpected call shape: {:?}", other),
    };
    assert_eq!(stored, payload);
    // The engine reports the count; finishing commits.
    assert_eq!(accept_count(EngineReply::Count(stored.len())), Ok(stored.len()));
    assert_eq!(accept_unit(EngineReply::Unit), Ok(()));

    // Reading back: the stored bytes land in exactly the requested region.
    let mut buf = vec![0u8; stored.len()];
    let blen = buf.len();
    let rreq = file.read_request(blen, 0, blen).unwrap();
    assert_eq!(rreq.call, FileCall::Read { len: blen });
    let n = read_accept(&mut buf, 0, blen, EngineReply::Bytes(stored.clone())).unwrap();
    assert_eq!(n, payload.len());
    assert_eq!(buf, payload);

    // Whole-content reads pass the bytes through unchanged.
    assert_eq!(accept_bytes(EngineReply::Bytes(stored.clone())), Ok(payload));
}

#[test]
fn read_accept_touches_only_the_requested_region() {
    let mut buf = vec![0xAAu8; 8];
    let n = read_accept(&mut buf, 2, 3, EngineReply::Bytes(vec![7, 8, 9])).unwrap();
    assert_eq!(n, 3);
    assert_eq!(buf, vec![0xAA, 0xAA, 7, 8, 9, 0xAA, 0xAA, 0xAA]);

    // A short read fills only its prefix of the region.
    let mut buf2 = vec![0u8; 6];
    let n2 = read_accept(&mut buf2, 1, 4, EngineReply::Bytes(vec![5, 6])).unwrap();
    assert_eq!(n2, 2);
    assert_eq!(buf2, vec![0, 5, 6, 0, 0, 0]);

    // More bytes than asked for, or a region outside the buffer, or a reply
    // of the wrong shape: rejected with the buffer untouched.
    let mut buf3 = vec![1u8; 4];
    assert_eq!(
        read_accept(&mut buf3, 0, 2, EngineReply::Bytes(vec![9, 9, 9])),
        Err(FsError::InvalidArgument)
    );
    assert_eq!(
        read_accept(&mut buf3, 3, 2, EngineReply::Bytes(vec![9])),
        Err(FsError::InvalidArgument)
    );
    assert_eq!(
        read_accept(&mut buf3, 0, 2, EngineReply::Unit),
        Err(FsError::InvalidArgument)
    );
    assert_eq!(buf3, vec![1u8; 4]);

    // A fault keeps its code and description verbatim.
    match read_accept(&mut buf3, 0, 2, fault(-1071, "Cannot read file")) {
        Err(e) => assert_eq!(e.message(), "ZboxFS(-1071): Cannot read file"),
        Ok(_) => panic!("a fault cannot yield a read count"),
    }
}

#[test]
fn buffer_bounds_are_validated_before_any_request_is_formed() {
    let file = FileWrapper::new(2);
    assert_eq!(
        file.read_request(4, 3, 2).err(),
        Some(FsError::InvalidArgument)
    );
    assert_eq!(
        file.read_request(4, 5, 0).err(),
        Some(FsError::InvalidArgument)
    );
    assert_eq!(file.read_request(4, 0, 4).unwrap().call, FileCall::Read { len: 4 });
    let rdr = VersionReaderWrapper::new(4);
    assert_eq!(
        rdr.read_request(4, 4, 1).err(),
        Some(FsError::InvalidArgument)
    );
    assert_eq!(rdr.read_request(4, 2, 2).unwrap().call, VrCall::Read { len: 2 });
}

#[test]
fn seek_requests_decode_the_three_origins() {
    let file = FileWrapper::new(6);
    for k in [0u64, 3, 9, 16] {
        let req = file.seek_request(0, k as i64).unwrap();
        assert_eq!(req.call, FileCall::Seek { pos: SeekPos::Start(k) });
        // The position query is a zero-length relative seek.
        let still = file.seek_request(2, 0).unwrap();
        assert_eq!(still.call, FileCall::Seek { pos: SeekPos::Current(0) });
        // The engine answers with the position; accepting passes it through.
        assert_eq!(accept_pos(EngineReply::Pos(k)), Ok(k));
    }
    assert_eq!(
        file.seek_request(1, -3).unwrap().call,
        FileCall::Seek { pos: SeekPos::End(-3) }
    );
    assert_eq!(file.seek_request(9, 0).err(), Some(FsError::InvalidArgument));
    // A negative offset from the start is the adapter's rejection too.
    assert_eq!(file.seek_request(0, -1).err(), Some(FsError::InvalidArgument));

    let rdr = VersionReaderWrapper::new(8);
    assert_eq!(
        rdr.seek_request(0, 5).unwrap().call,
        VrCall::Seek { pos: SeekPos::Start(5) }
    );
    assert_eq!(rdr.seek_request(7, 1).err(), Some(FsError::InvalidArgument));
}

#[test]
fn directory_listing_is_accepted_with_populated_metadata() {
    let listing = vec![
        DirEntryRec {
            path: String::from("/d/a.txt"),
            file_name: String::from("a.txt"),
            metadata: file_meta(5),
        },
        DirEntryRec {
            path: String::from("/d/b"),
            file_name: String::from("b"),
            metadata: dir_meta(),
        },
    ];
    let entries = accept_entries(EngineReply::Entries(listing)).unwrap();
    assert_eq!(entries.len(), 2);
    let mut names: Vec<String> = entries.iter().map(|e| e.file_name.clone()).collect();
    names.sort();
    assert_eq!(names, vec![String::from("a.txt"), String::from("b")]);
    for e in &entries {
        assert!(e.metadata.file_type == "File" || e.metadata.file_type == "Dir");
        if e.file_name == "a.txt" {
            assert_eq!(e.metadata.file_type, "File");
            assert_eq!(e.metadata.content_len, 5);
            assert_eq!(e.path, "/d/a.txt");
        } else {
            assert_eq!(e.metadata.file_type, "Dir");
            assert_eq!(e.path, "/d/b");
        }
    }

    // An entry whose metadata names neither kind is the adapter's rejection.
    let bad = vec![DirEntryRec {
        path: String::from("/d/x"),
        file_name: String::from("x"),
        metadata: MetadataRec {
            file_type: String::from("Socket"),
            content_len: 0,
            curr_version: 1,
            created_at: 0,
            modified_at: 0,
        },
    }];
    assert_eq!(
        accept_entries(EngineReply::Entries(bad)),
        Err(FsError::InvalidArgument)
    );
    match accept_entries(fault(-1057, "Path is not dir")) {
        Err(e) => assert_eq!(e.message(), "ZboxFS(-1057): Path is not dir"),
        Ok(_) => panic!("a fault cannot yield a listing"),
    }
}

#[test]
fn replies_of_the_wrong_shape_are_rejected() {
    assert_eq!(accept_flag(EngineReply::Unit), Err(FsError::InvalidArgument));
    assert_eq!(
        accept_unit(EngineReply::Flag(true)),
        Err(FsError::InvalidArgument)
    );
    assert_eq!(
        accept_num(EngineReply::Pos(1)),
        Err(FsError::InvalidArgument)
    );
    assert_eq!(accept_flag(EngineReply::Flag(true)), Ok(true));
    assert_eq!(accept_num(EngineReply::Num(3)), Ok(3));
    let info = RepoInfoRec {
        volume_id: String::from("vol"),
        version: String::from("ZboxFS v1"),
        uri: String::from("mem://scen-info"),
        compress: false,
        version_limit: 10,
        dedup_chunk: false,
        is_read_only: false,
        created_at: 100,
    };
    assert_eq!(accept_info(EngineReply::Info(info.clone())), Ok(info));
    let hist = vec![VersionRec {
        num: 1,
        content_len: 4,
        created_at: 50,
    }];
    assert_eq!(accept_hist(EngineReply::Hist(hist.clone())), Ok(hist));
    assert_eq!(accept_meta(EngineReply::Meta(file_meta(4))), Ok(file_meta(4)));
    // A metadata record naming neither kind is rejected.
    let odd = MetadataRec {
        file_type: String::from("file"),
        content_len: 0,
        curr_version: 1,
        created_at: 0,
        modified_at: 0,
    };
    assert_eq!(
        accept_meta(EngineReply::Meta(odd)),
        Err(FsError::InvalidArgument)
    );
}

#[test]
fn tasks_complete_exactly_once_in_any_order() {
    let repo = RepoWrapper::new(9);
    let mut ex: Executor<RepoCall> = Executor::new();
    let mut submitted = Vec::new();
    for _ in 0..5 {
        submitted.push(
            ex.submit(RepoCall::PathExists {
                path: String::from("/t"),
            })
            .unwrap(),
        );
    }
    submitted.push(
        ex.submit(RepoCall::RemoveFile {
            path: String::from("/t"),
        })
        .unwrap(),
    );

    // Drain in an arbitrary interleaving: the remove may run between the
    // existence checks; the simulated engine answers each request in shape.
    let mut removed = false;
    let mut completions: Vec<Completion> = Vec::new();
    for pick in [3usize, 0, 2, 0, 1, 0] {
        let t = ex.start(pick).unwrap();
        let outcome = match repo.begin_ref(&t.op) {
            Err(e) => TaskOutcome::Fault(e),
            Ok(req) => {
                assert_eq!(req.target, 9);
                let reply = match req.call {
                    RepoCall::PathExists { .. } => EngineReply::Flag(!removed),
                    RepoCall::RemoveFile { .. } => {
                        removed = true;
                        EngineReply::Unit
                    }
                    other => panic!("an unexpected call shape: {:?}", other),
                };
                finish_repo_task(req.call, reply)
            }
        };
        let id = t.id;
        ex.complete(t);
        completions.push(Completion { id, outcome });
    }
    assert!(ex.start(0).is_none());

    assert_eq!(completions.len(), submitted.len());
    let mut ids: Vec<u64> = completions.iter().map(|c| c.id).collect();
    ids.sort();
    let mut expected = submitted.clone();
    expected.sort();
    assert_eq!(ids, expected);
    for c in &completions {
        match &c.outcome {
            TaskOutcome::Flag(_) => {}
            TaskOutcome::Done => {}
            TaskOutcome::Fault(e) => {
                assert!(e.message().starts_with("ZboxFS("));
            }
            other => panic!("an outcome of the wrong shape: {:?}", other),
        }
    }
}

#[test]
fn tasks_against_a_closed_repo_fail_uniformly() {
    let mut repo = RepoWrapper::new(4);
    repo.close();
    let ops = vec![
        RepoCall::Info,
        RepoCall::PathExists {
            path: String::from("/"),
        },
        RepoCall::ReadDir {
            path: String::from("/"),
        },
        RepoCall::RemoveFile {
            path: String::from("/x"),
        },
        RepoCall::Rename {
            from: String::from("/a"),
            to: String::from("/b"),
        },
    ];
    for op in &ops {
        // The request never forms, so the engine is never reached; the
        // completion is the closed-class fault.
        let outcome = match repo.begin_ref(op) {
            Err(e) => TaskOutcome::Fault(e),
            Ok(_) => panic!("a closed repository must reject every request"),
        };
        assert_eq!(outcome, TaskOutcome::Fault(FsError::RepoClosed));
    }
}

#[test]
fn repo_tasks_finish_in_their_operations_shape() {
    let info_call = RepoCall::Info;
    match finish_repo_task(&info_call, EngineReply::Info(RepoInfoRec {
        volume_id: String::from("v"),
        version: String::from("ZboxFS v1"),
        uri: String::from("mem://t"),
        compress: false,
        version_limit: 1,
        dedup_chunk: true,
        is_read_only: false,
        created_at: 7,
    })) {
        TaskOutcome::Info(i) => assert_eq!(i.uri, "mem://t"),
        other => panic!("an outcome of the wrong shape: {:?}", other),
    }
    // A reply of another operation's shape never crosses as a result.
    assert_eq!(
        finish_repo_task(&info_call, EngineReply::Flag(true)),
        TaskOutcome::Fault(FsError::InvalidArgument)
    );
    let open_call = RepoCall::CreateFile {
        path: String::from("/n"),
    };
    assert_eq!(
        finish_repo_task(&open_call, EngineReply::Handle(31)),
        TaskOutcome::Opened(31)
    );
    let remove_call = RepoCall::RemoveFile {
        path: String::from("/n"),
    };
    assert_eq!(
        finish_repo_task(&remove_call, EngineReply::Unit),
        TaskOutcome::Done
    );
    match finish_repo_task(&remove_call, fault(-1052, "File not found")) {
        TaskOutcome::Fault(e) => {
            assert_eq!(e.code(), -1052);
            assert_eq!(e.message(), "ZboxFS(-1052): File not found");
        }
        other => panic!("an outcome of the wrong shape: {:?}", other),
    }
}

#[test]
fn file_tasks_finish_in_their_operations_shape() {
    assert_eq!(
        finish_file_task(&FileCall::Metadata, EngineReply::Meta(file_meta(7))),
        TaskOutcome::Meta(file_meta(7))
    );
    assert_eq!(
        finish_file_task(
            &FileCall::History,
            EngineReply::Hist(vec![VersionRec {
                num: 2,
                content_len: 7,
                created_at: 5,
            }])
        ),
        TaskOutcome::Hist(vec![VersionRec {
            num: 2,
            content_len: 7,
            created_at: 5,
        }])
    );
    assert_eq!(
        finish_file_task(&FileCall::Metadata, EngineReply::Pos(1)),
        TaskOutcome::Fault(FsError::InvalidArgument)
    );
    assert_eq!(
        finish_file_task(&FileCall::Seek { pos: SeekPos::Start(5) }, EngineReply::Pos(5)),
        TaskOutcome::Pos(5)
    );
    assert_eq!(
        finish_file_task(&FileCall::CurrVersion, EngineReply::Num(3)),
        TaskOutcome::Num(3)
    );
    assert_eq!(
        finish_file_task(&FileCall::VersionReader { ver_num: 3 }, EngineReply::Handle(77)),
        TaskOutcome::Opened(77)
    );
}

#[test]
fn handles_transfer_wrappers_exactly_once() {
    let repo = RepoWrapper::new(55);
    let mut table: HandleTable<RepoWrapper> = HandleTable::new();
    let h = match table.deposit(repo) {
        Ok(h) => h,
        Err(_) => panic!("a fresh registry cannot be exhausted"),
    };
    assert!(h < 1u64 << 53);
    let claimed = table.claim(h).expect("the first reconstruction succeeds");
    assert!(table.claim(h).is_none(), "a handle cannot be consumed twice");
    let req = claimed.begin(RepoCall::Info).unwrap();
    assert_eq!(req.target, 55);
}
