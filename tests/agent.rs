use shim::agent::{Action, Agent, Event, Phase, IDLE_SLEEP_MS};
use shim::download::assemble_download;
use shim::frame::TransferFrame;
use shim::task::{join, AgentError, Task};
use shim::upload::encode_upload;

fn task(id: &str, args: &[&str], files: &[&str]) -> Task {
    Task {
        id: id.to_string(),
        args: args.iter().map(|s| s.to_string()).collect(),
        files: files.iter().map(|s| s.to_string()).collect(),
    }
}

#[test]
fn full_cycle_with_one_input_and_one_output() {
    let (agent, action) = Agent::new("/workspace".to_string());
    assert!(matches!(action, Action::GetTask));

    let (agent, action) = agent.step(Event::TaskOffered(task("t1", &["run"], &["in.bin"])));
    match &action {
        Action::FetchFile { task_id, name, dest } => {
            assert_eq!(task_id, "t1");
            assert_eq!(name, "in.bin");
            assert_eq!(dest, "/workspace/t1/in.bin");
        }
        _ => panic!("expected a fetch"),
    }

    let served: Vec<u8> = (0..10000u32).map(|i| (i * 7 % 256) as u8).collect();
    let (frames, _) = encode_upload("t1".to_string(), "in.bin".to_string(), &served);
    let sizes: Vec<usize> = frames
        .iter()
        .filter_map(|f| match f {
            TransferFrame::Chunk(d) => Some(d.len()),
            _ => None,
        })
        .collect();
    assert_eq!(sizes, vec![4096, 4096, 1808]);
    assert_eq!(assemble_download(&frames).unwrap(), served);

    let (agent, action) = agent.step(Event::FileStaged);
    let staged = match action {
        Action::Execute(t) => t,
        _ => panic!("expected the task to run"),
    };
    assert_eq!(staged.id, "t1");
    assert_eq!(staged.args, vec!["run".to_string()]);
    assert_eq!(staged.files, vec!["/workspace/t1/in.bin".to_string()]);

    let result = staged.result(b"done".to_vec(), vec!["out.bin".to_string()]).unwrap();
    let (agent, action) = agent.step(Event::Executed(result));
    match &action {
        Action::UploadFile { task_id, path } => {
            assert_eq!(task_id, "t1");
            assert_eq!(path, "out.bin");
        }
        _ => panic!("expected an upload"),
    }

    let output = b"output bytes".to_vec();
    let (_, checksum) = encode_upload("t1".to_string(), "out.bin".to_string(), &output);
    assert_eq!(checksum, *blake3::hash(&output).as_bytes());

    let (agent, action) = agent.step(Event::FileUploaded(checksum));
    match &action {
        Action::SubmitResult { task_id, data, manifest } => {
            assert_eq!(task_id, "t1");
            assert_eq!(data, b"done");
            assert_eq!(manifest.len(), 1);
            assert_eq!(manifest[0].path, "out.bin");
            assert_eq!(manifest[0].checksum, checksum);
        }
        _ => panic!("expected a submission"),
    }

    let (agent, action) = agent.step(Event::Submitted(true));
    assert!(matches!(action, Action::GetTask));
    assert!(agent.outcome().is_none());
}

#[test]
fn no_task_sleeps_and_retries() {
    let (agent, _) = Agent::new("/workspace".to_string());
    let (agent, action) = agent.step(Event::NoTask);
    assert!(matches!(action, Action::Sleep(ms) if ms == IDLE_SLEEP_MS));
    assert_eq!(IDLE_SLEEP_MS, 1000);
    assert!(agent.outcome().is_none());
    let (agent, action) = agent.step(Event::Slept);
    assert!(matches!(action, Action::GetTask));
    let (_, action) = agent.step(Event::NoTask);
    assert!(matches!(action, Action::Sleep(1000)));
}

#[test]
fn continuation_false_stops_gracefully() {
    let (agent, _) = Agent::new("/ws".to_string());
    let (agent, action) = agent.step(Event::TaskOffered(task("a", &[], &[])));
    let t = match action {
        Action::Execute(t) => t,
        _ => panic!("a task without files runs at once"),
    };
    let (agent, action) = agent.step(Event::Executed(t.result(vec![1], vec![]).unwrap()));
    assert!(matches!(action, Action::SubmitResult { ref manifest, .. } if manifest.is_empty()));
    let (agent, action) = agent.step(Event::Submitted(false));
    assert!(matches!(action, Action::Stop));
    assert_eq!(agent.outcome(), Some(Ok(())));
    let (agent, action) = agent.step(Event::NoTask);
    assert!(matches!(action, Action::Stop));
    assert_eq!(agent.outcome(), Some(Ok(())));
}

#[test]
fn staging_failure_prevents_execution() {
    let (agent, _) = Agent::new("/ws".to_string());
    let (agent, _) = agent.step(Event::TaskOffered(task("a", &[], &["x", "y", "z"])));
    let (agent, action) = agent.step(Event::FileStaged);
    assert!(matches!(action, Action::FetchFile { ref name, ref dest, .. } if name == "y" && dest == "/ws/a/y"));
    let (agent, action) = agent.step(Event::StagingFailed);
    assert!(matches!(action, Action::Stop));
    assert_eq!(agent.outcome(), Some(Err(AgentError::StagingFailed)));
    let (_, action) = agent.step(Event::FileStaged);
    assert!(matches!(action, Action::Stop));
}

#[test]
fn host_error_code_fails_the_loop() {
    let (agent, _) = Agent::new("/ws".to_string());
    let (agent, action) = agent.step(Event::TaskRefused(3));
    assert!(matches!(action, Action::Stop));
    assert_eq!(agent.outcome(), Some(Err(AgentError::TaskRefused(3))));
}

#[test]
fn unexpected_reply_fails_the_loop() {
    let (agent, _) = Agent::new("/ws".to_string());
    let (agent, action) = agent.step(Event::FileStaged);
    assert!(matches!(action, Action::Stop));
    assert!(matches!(agent.outcome(), Some(Err(AgentError::UnexpectedEvent))));
}

#[test]
fn execution_and_upload_failures_stop_before_submission() {
    let (agent, _) = Agent::new("/ws".to_string());
    let (agent, _) = agent.step(Event::TaskOffered(task("a", &[], &[])));
    let (agent, action) = agent.step(Event::ExecutionFailed);
    assert!(matches!(action, Action::Stop));
    assert_eq!(agent.outcome(), Some(Err(AgentError::ExecutionFailed)));

    let (agent, _) = Agent::new("/ws".to_string());
    let (agent, action) = agent.step(Event::TaskOffered(task("a", &[], &[])));
    let t = match action {
        Action::Execute(t) => t,
        _ => panic!("expected the task to run"),
    };
    let result = t.result(vec![], vec!["o1".to_string(), "o2".to_string()]).unwrap();
    let (agent, _) = agent.step(Event::Executed(result));
    let (agent, action) = agent.step(Event::FileUploaded([1; 32]));
    assert!(matches!(action, Action::UploadFile { ref path, .. } if path == "o2"));
    let (agent, action) = agent.step(Event::UploadFailed);
    assert!(matches!(action, Action::Stop));
    assert_eq!(agent.outcome(), Some(Err(AgentError::UploadFailed)));
    let _ = Phase::Polling;
}

#[test]
fn task_files_paths_are_namespaced_by_task() {
    let t = task("t1", &[], &["in.bin", "sub/data.txt", "/abs/file"]);
    let paths = t.get_task_files_path("/workspace");
    assert_eq!(
        paths,
        vec![
            ("in.bin".to_string(), "/workspace/t1/in.bin".to_string()),
            ("sub/data.txt".to_string(), "/workspace/t1/sub/data.txt".to_string()),
            ("/abs/file".to_string(), "/abs/file".to_string()),
        ]
    );
    assert_eq!(t.get_task_files_path("/ws/")[0].1, "/ws/t1/in.bin");
    assert!(t.get_task_files_path("").iter().any(|p| p.1 == "t1/in.bin"));
}

#[test]
fn join_follows_path_rules() {
    assert_eq!(join("/a", "b"), "/a/b");
    assert_eq!(join("/a/", "b"), "/a/b");
    assert_eq!(join("", "b"), "b");
    assert_eq!(join("/a", "/b"), "/b");
    assert_eq!(join("/a", ""), "/a/");
}

#[test]
fn result_keeps_id_payload_and_files() {
    let t = task("t9", &["x"], &[]);
    let r = t.result(vec![4, 5], vec!["o".to_string()]).unwrap();
    assert_eq!(r.id(), "t9");
    assert_eq!(r.data(), &vec![4, 5]);
    assert_eq!(r.files(), &vec!["o".to_string()]);
}
