use muxterm_frontend::client::call::CoreCall;
use muxterm_frontend::client::types::ClientTask;
use muxterm_frontend::command_queue::{dispatch, result_code, ClientCommand, CommandQueue};

#[test]
fn consecutive_switches_keep_only_the_last_target() {
    let mut queue = CommandQueue::default();
    queue.push(ClientCommand::Task {
        workspace_id: None,
        task: ClientTask::SwitchTab { tab_id: 61 },
    });
    queue.push(ClientCommand::Task {
        workspace_id: None,
        task: ClientTask::SwitchTab { tab_id: 0 },
    });

    assert_eq!(queue.len(), 1);
    assert_eq!(
        queue.drain(),
        vec![ClientCommand::Task {
            workspace_id: None,
            task: ClientTask::SwitchTab { tab_id: 0 },
        }]
    );
}

#[test]
fn input_order_is_preserved_and_not_coalesced() {
    let mut queue = CommandQueue::default();
    for byte in *b"abc" {
        queue.push(ClientCommand::Input {
            workspace_id: None,
            pane_id: 7,
            data: vec![byte],
            quiet: false,
        });
    }

    assert_eq!(queue.len(), 3);
    let drained = queue.drain();
    assert_eq!(drained.len(), 3);
    for (command, byte) in drained.iter().zip(*b"abc") {
        assert_eq!(
            *command,
            ClientCommand::Input {
                workspace_id: None,
                pane_id: 7,
                data: vec![byte],
                quiet: false,
            }
        );
    }
}

#[test]
fn resize_coalesces_only_for_the_same_workspace_and_pane() {
    let mut queue = CommandQueue::default();
    queue.push(ClientCommand::Resize {
        workspace_id: Some("one".into()),
        pane_id: Some(7),
        cols: 80,
        rows: 24,
    });
    queue.push(ClientCommand::Resize {
        workspace_id: Some("one".into()),
        pane_id: Some(7),
        cols: 120,
        rows: 40,
    });
    queue.push(ClientCommand::Resize {
        workspace_id: Some("two".into()),
        pane_id: Some(7),
        cols: 100,
        rows: 30,
    });

    assert_eq!(queue.len(), 2);
    assert_eq!(
        queue.drain()[0],
        ClientCommand::Resize {
            workspace_id: Some("one".into()),
            pane_id: Some(7),
            cols: 120,
            rows: 40,
        }
    );
}

/// What a core without any workspace answers to a call.
fn answer_of_an_empty_core(call: &CoreCall) -> i32 {
    match call {
        CoreCall::WorkspaceSendInput { .. } => -1,
        _ => 0,
    }
}

#[test]
fn flush_dispatches_owned_workspace_batch_and_consumes_it() {
    let mut queue = CommandQueue::default();
    queue.push(ClientCommand::Input {
        workspace_id: Some("local//missing/shell/".into()),
        pane_id: 7,
        data: b"x".to_vec(),
        quiet: false,
    });

    let calls = queue.flush();
    let results: Vec<i32> = calls
        .iter()
        .map(|call| result_code(call, answer_of_an_empty_core(call)))
        .collect();

    assert_eq!(results.len(), 1);
    assert_ne!(results[0], 0, "catalog must reject the missing workspace");
    assert!(queue.is_empty());
    assert_eq!(
        calls[0],
        CoreCall::WorkspaceSendInput {
            workspace_id: "local//missing/shell/".into(),
            pane_id: 7,
            data: b"x".to_vec(),
        }
    );
}

#[test]
fn empty_input_makes_no_call_and_succeeds() {
    let call = dispatch(ClientCommand::Input {
        workspace_id: Some("w".into()),
        pane_id: 1,
        data: Vec::new(),
        quiet: true,
    });
    assert_eq!(call, CoreCall::Nothing);
    assert_eq!(result_code(&call, 5), 0);
}

#[test]
fn activation_takes_the_place_of_an_earlier_one_at_the_end_only() {
    let mut queue = CommandQueue::default();
    queue.push(ClientCommand::ActivateWorkspace("a".into()));
    queue.push(ClientCommand::ActivateWorkspace("b".into()));
    queue.push(ClientCommand::CloseWorkspace("c".into()));
    queue.push(ClientCommand::ActivateWorkspace("d".into()));
    assert_eq!(
        queue.drain(),
        vec![
            ClientCommand::ActivateWorkspace("b".into()),
            ClientCommand::CloseWorkspace("c".into()),
            ClientCommand::ActivateWorkspace("d".into()),
        ]
    );
}

#[test]
fn names_with_a_nul_reach_the_core_as_empty_text() {
    assert_eq!(
        dispatch(ClientCommand::ActivateWorkspace("a\0b".into())),
        CoreCall::WorkspaceActivate { workspace_id: String::new() }
    );
}
