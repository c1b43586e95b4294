//! What is asked of the core: each call by its function and its arguments, and
//! what its answers are read as.
use vstd::prelude::*;

use crate::client::call::{
    copied_count, cstring, cstring_opt, line_seq_reply, offset_reply, panes_reply, tabs_reply,
    CPane, CTab, CoreCall, CoreCallView, FfiClient,
};
use crate::client::config::{
    dotted_config_pointer, intent_word, next_step, replace, target_json, ClientAttentionConfig,
    ConfigTransaction,
};
use crate::client::query::{
    begun, committed, created_name, layout_reply, named_in, output_reply, probed, reloaded,
    step_call, wanted_part, CArgView, CCall, CFunction,
};
use crate::client::error::{answer_of, reply_view, ReplyError, ReplyErrorView};
use crate::client::gather::{ffi_workspace_snapshot, layout_calls, output_calls, pane_calls};
use crate::client::request::{attention_json, open_request_json, patch_json};
use crate::client::runtime::{check_code, ConnectCall, ConnectCallView};
use crate::client::snapshot::{all_panes, FfiWorkspaceSnapshot};
use crate::client::types::{
    ClientJsonPatchOperation, ClientLayout, ClientOpenIntent, ClientOpenRequest,
    ClientPane, ClientResizeAxis, ClientTab, ClientTarget, ClientWorkspace,
};
use crate::json::read::{field_of, value_or_null};
use crate::seqs::{lemma_first_where, lemma_no_first};
use crate::text::number::signed_decimal;
use crate::text::{all_white, opt_view};

verus! {

/// An argument is a text. One with a zero in it cannot be handed over, and
/// goes as an empty one.
pub open spec fn is_text(arg: CArgView, s: Seq<char>) -> bool {
    arg matches CArgView::Text(t) && (s.contains('\0') ==> t.len() == 0) && (!s.contains('\0')
        ==> t == s)
}

/// An argument is a text that may be missing.
pub open spec fn is_choice(arg: CArgView, s: Option<&str>) -> bool {
    (s is None ==> arg is Absent) && (s is Some ==> is_text(arg, (s->0)@))
}

/// An argument is a number.
pub open spec fn is_number(arg: CArgView, n: int) -> bool {
    arg matches CArgView::Number(m) && m == n
}

/// Calls that ask for one thing as a whole hand over nothing.
pub proof fn law_calls_without_arguments(
    to_config_describe: CCall,
    to_config_begin: CCall,
    to_config_reload: CCall,
    to_config_events: CCall,
    to_detach: CCall,
    to_shutdown: CCall,
    to_workspace_list: CCall,
    to_runtime_list: CCall,
    to_activity_snapshot: CCall,
    to_take_activity_notifications: CCall,
    to_activity_records: CCall,
    to_take_activity_events: CCall,
    to_status_subscription_active: CCall,
)
    requires
        call_ensures(FfiClient::config_describe, (), to_config_describe),
        call_ensures(FfiClient::config_begin, (), to_config_begin),
        call_ensures(FfiClient::config_reload, (), to_config_reload),
        call_ensures(FfiClient::config_events, (), to_config_events),
        call_ensures(FfiClient::detach, (), to_detach),
        call_ensures(FfiClient::shutdown, (), to_shutdown),
        call_ensures(FfiClient::workspace_list, (), to_workspace_list),
        call_ensures(FfiClient::runtime_list, (), to_runtime_list),
        call_ensures(FfiClient::activity_snapshot, (), to_activity_snapshot),
        call_ensures(FfiClient::take_activity_notifications, (), to_take_activity_notifications),
        call_ensures(FfiClient::activity_records, (), to_activity_records),
        call_ensures(FfiClient::take_activity_events, (), to_take_activity_events),
        call_ensures(FfiClient::status_subscription_active, (), to_status_subscription_active),
    ensures
        to_config_describe@.function == CFunction::ConfigDescribe
            && to_config_describe@.args.len() == 0,
        to_config_begin@.function == CFunction::ConfigBegin
            && to_config_begin@.args.len() == 0,
        to_config_reload@.function == CFunction::ConfigReload
            && to_config_reload@.args.len() == 0,
        to_config_events@.function == CFunction::ConfigEvents
            && to_config_events@.args.len() == 0,
        to_detach@.function == CFunction::Detach
            && to_detach@.args.len() == 0,
        to_shutdown@.function == CFunction::Shutdown
            && to_shutdown@.args.len() == 0,
        to_workspace_list@.function == CFunction::WorkspaceList
            && to_workspace_list@.args.len() == 0,
        to_runtime_list@.function == CFunction::RuntimeList
            && to_runtime_list@.args.len() == 0,
        to_activity_snapshot@.function == CFunction::AttentionSnapshot
            && to_activity_snapshot@.args.len() == 0,
        to_take_activity_notifications@.function == CFunction::TakeNotifications
            && to_take_activity_notifications@.args.len() == 0,
        to_activity_records@.function == CFunction::ActivityRecords
            && to_activity_records@.args.len() == 0,
        to_take_activity_events@.function == CFunction::TakeActivityEvents
            && to_take_activity_events@.args.len() == 0,
        to_status_subscription_active@.function == CFunction::StatusSubscriptionActive
            && to_status_subscription_active@.args.len() == 0,
{
}

/// Calls about a pane hand over its workspace, its number, and what is asked of it.
pub proof fn law_calls_about_a_pane(
    workspace_id: &str,
    pane_id: u32,
    offset: u32,
    rows: u32,
    seq: u64,
    n: u32,
    name: Option<&str>,
    seconds: u64,
    to_herdr_probe: CCall,
    to_get_workspace_pane_output: CCall,
    to_take_workspace_pane_reply: CCall,
    to_workspace_pane_viewport: CCall,
    to_set_workspace_pane_viewport: CCall,
    to_workspace_pane_history_max_offset: CCall,
    to_workspace_pane_command_marks: CCall,
    to_workspace_pane_latest_line_seq: CCall,
    to_workspace_pane_viewport_for_seq: CCall,
    to_workspace_pane_last_n_lines: CCall,
    to_workspace_attention_on_became_visible: CCall,
    to_workspace_attention_acknowledge: CCall,
    to_workspace_attention_set_process_name: CCall,
    to_workspace_attention_mute: CCall,
)
    requires
        call_ensures(FfiClient::herdr_probe, (workspace_id, pane_id), to_herdr_probe),
        call_ensures(FfiClient::get_workspace_pane_output, (workspace_id, pane_id),
            to_get_workspace_pane_output),
        call_ensures(FfiClient::take_workspace_pane_reply, (workspace_id, pane_id),
            to_take_workspace_pane_reply),
        call_ensures(FfiClient::workspace_pane_viewport, (workspace_id, pane_id),
            to_workspace_pane_viewport),
        call_ensures(FfiClient::set_workspace_pane_viewport, (workspace_id, pane_id, offset),
            to_set_workspace_pane_viewport),
        call_ensures(FfiClient::workspace_pane_history_max_offset, (workspace_id, pane_id, rows),
            to_workspace_pane_history_max_offset),
        call_ensures(FfiClient::workspace_pane_command_marks, (workspace_id, pane_id),
            to_workspace_pane_command_marks),
        call_ensures(FfiClient::workspace_pane_latest_line_seq, (workspace_id, pane_id),
            to_workspace_pane_latest_line_seq),
        call_ensures(FfiClient::workspace_pane_viewport_for_seq, (workspace_id, pane_id, seq),
            to_workspace_pane_viewport_for_seq),
        call_ensures(FfiClient::workspace_pane_last_n_lines, (workspace_id, pane_id, n),
            to_workspace_pane_last_n_lines),
        call_ensures(FfiClient::workspace_attention_on_became_visible, (workspace_id, pane_id),
            to_workspace_attention_on_became_visible),
        call_ensures(FfiClient::workspace_attention_acknowledge, (workspace_id, pane_id),
            to_workspace_attention_acknowledge),
        call_ensures(FfiClient::workspace_attention_set_process_name, (workspace_id, pane_id, name),
            to_workspace_attention_set_process_name),
        call_ensures(FfiClient::workspace_attention_mute, (workspace_id, pane_id, seconds),
            to_workspace_attention_mute),
    ensures
        to_herdr_probe@.function == CFunction::HerdrProbe
            && to_herdr_probe@.args.len() == 2
            && is_text(to_herdr_probe@.args[0], workspace_id@)
            && is_number(to_herdr_probe@.args[1], pane_id as int),
        to_get_workspace_pane_output@.function == CFunction::WorkspaceGetPaneOutput
            && to_get_workspace_pane_output@.args.len() == 3
            && is_text(to_get_workspace_pane_output@.args[0], workspace_id@)
            && is_number(to_get_workspace_pane_output@.args[1], pane_id as int)
            && is_number(to_get_workspace_pane_output@.args[2], 262144),
        to_take_workspace_pane_reply@.function == CFunction::TakePaneReply
            && to_take_workspace_pane_reply@.args.len() == 2
            && is_text(to_take_workspace_pane_reply@.args[0], workspace_id@)
            && is_number(to_take_workspace_pane_reply@.args[1], pane_id as int),
        to_workspace_pane_viewport@.function == CFunction::PaneViewport
            && to_workspace_pane_viewport@.args.len() == 2
            && is_text(to_workspace_pane_viewport@.args[0], workspace_id@)
            && is_number(to_workspace_pane_viewport@.args[1], pane_id as int),
        to_set_workspace_pane_viewport@.function == CFunction::SetPaneViewport
            && to_set_workspace_pane_viewport@.args.len() == 3
            && is_text(to_set_workspace_pane_viewport@.args[0], workspace_id@)
            && is_number(to_set_workspace_pane_viewport@.args[1], pane_id as int)
            && is_number(to_set_workspace_pane_viewport@.args[2], offset as int),
        to_workspace_pane_history_max_offset@.function == CFunction::HistoryMaxOffset
            && to_workspace_pane_history_max_offset@.args.len() == 3
            && is_text(to_workspace_pane_history_max_offset@.args[0], workspace_id@)
            && is_number(to_workspace_pane_history_max_offset@.args[1], pane_id as int)
            && is_number(to_workspace_pane_history_max_offset@.args[2], rows as int),
        to_workspace_pane_command_marks@.function == CFunction::CommandMarks
            && to_workspace_pane_command_marks@.args.len() == 2
            && is_text(to_workspace_pane_command_marks@.args[0], workspace_id@)
            && is_number(to_workspace_pane_command_marks@.args[1], pane_id as int),
        to_workspace_pane_latest_line_seq@.function == CFunction::LatestLineSeq
            && to_workspace_pane_latest_line_seq@.args.len() == 2
            && is_text(to_workspace_pane_latest_line_seq@.args[0], workspace_id@)
            && is_number(to_workspace_pane_latest_line_seq@.args[1], pane_id as int),
        to_workspace_pane_viewport_for_seq@.function == CFunction::ViewportForSeq
            && to_workspace_pane_viewport_for_seq@.args.len() == 3
            && is_text(to_workspace_pane_viewport_for_seq@.args[0], workspace_id@)
            && is_number(to_workspace_pane_viewport_for_seq@.args[1], pane_id as int)
            && is_number(to_workspace_pane_viewport_for_seq@.args[2], seq as int),
        to_workspace_pane_last_n_lines@.function == CFunction::LastLines
            && to_workspace_pane_last_n_lines@.args.len() == 3
            && is_text(to_workspace_pane_last_n_lines@.args[0], workspace_id@)
            && is_number(to_workspace_pane_last_n_lines@.args[1], pane_id as int)
            && is_number(to_workspace_pane_last_n_lines@.args[2], n as int),
        to_workspace_attention_on_became_visible@.function == CFunction::AttentionVisible
            && to_workspace_attention_on_became_visible@.args.len() == 2
            && is_text(to_workspace_attention_on_became_visible@.args[0], workspace_id@)
            && is_number(to_workspace_attention_on_became_visible@.args[1], pane_id as int),
        to_workspace_attention_acknowledge@.function == CFunction::AttentionAcknowledge
            && to_workspace_attention_acknowledge@.args.len() == 2
            && is_text(to_workspace_attention_acknowledge@.args[0], workspace_id@)
            && is_number(to_workspace_attention_acknowledge@.args[1], pane_id as int),
        to_workspace_attention_set_process_name@.function == CFunction::AttentionProcessName
            && to_workspace_attention_set_process_name@.args.len() == 3
            && is_text(to_workspace_attention_set_process_name@.args[0], workspace_id@)
            && is_number(to_workspace_attention_set_process_name@.args[1], pane_id as int)
            && is_choice(to_workspace_attention_set_process_name@.args[2], name),
        to_workspace_attention_mute@.function == CFunction::AttentionMute
            && to_workspace_attention_mute@.args.len() == 3
            && is_text(to_workspace_attention_mute@.args[0], workspace_id@)
            && is_number(to_workspace_attention_mute@.args[1], pane_id as int)
            && is_number(to_workspace_attention_mute@.args[2], seconds as int),
{
}

/// Calls about tabs and panes hand over their numbers, and how many answers there is
/// room for: 32 tabs, 64 panes, 262144 bytes.
pub proof fn law_calls_about_tabs(
    workspace_id: &str,
    tab_id: u32,
    pane_id: u32,
    to_get_tabs: CCall,
    to_get_workspace_tabs: CCall,
    to_get_panes: CCall,
    to_get_layout: CCall,
    to_get_workspace_panes: CCall,
    to_get_workspace_layout: CCall,
    to_get_pane_output: CCall,
)
    requires
        call_ensures(FfiClient::get_tabs, (), to_get_tabs),
        call_ensures(FfiClient::get_workspace_tabs, (workspace_id,), to_get_workspace_tabs),
        call_ensures(FfiClient::get_panes, (tab_id,), to_get_panes),
        call_ensures(FfiClient::get_layout, (tab_id,), to_get_layout),
        call_ensures(FfiClient::get_workspace_panes, (workspace_id, tab_id),
            to_get_workspace_panes),
        call_ensures(FfiClient::get_workspace_layout, (workspace_id, tab_id),
            to_get_workspace_layout),
        call_ensures(FfiClient::get_pane_output, (pane_id,), to_get_pane_output),
    ensures
        to_get_tabs@.function == CFunction::GetTabs
            && to_get_tabs@.args.len() == 1
            && is_number(to_get_tabs@.args[0], 32),
        to_get_workspace_tabs@.function == CFunction::WorkspaceGetTabs
            && to_get_workspace_tabs@.args.len() == 2
            && is_text(to_get_workspace_tabs@.args[0], workspace_id@)
            && is_number(to_get_workspace_tabs@.args[1], 32),
        to_get_panes@.function == CFunction::GetPanes
            && to_get_panes@.args.len() == 2
            && is_number(to_get_panes@.args[0], tab_id as int)
            && is_number(to_get_panes@.args[1], 64),
        to_get_layout@.function == CFunction::GetLayout
            && to_get_layout@.args.len() == 1
            && is_number(to_get_layout@.args[0], tab_id as int),
        to_get_workspace_panes@.function == CFunction::WorkspaceGetPanes
            && to_get_workspace_panes@.args.len() == 3
            && is_text(to_get_workspace_panes@.args[0], workspace_id@)
            && is_number(to_get_workspace_panes@.args[1], tab_id as int)
            && is_number(to_get_workspace_panes@.args[2], 64),
        to_get_workspace_layout@.function == CFunction::WorkspaceGetLayout
            && to_get_workspace_layout@.args.len() == 2
            && is_text(to_get_workspace_layout@.args[0], workspace_id@)
            && is_number(to_get_workspace_layout@.args[1], tab_id as int),
        to_get_pane_output@.function == CFunction::GetPaneOutput
            && to_get_pane_output@.args.len() == 2
            && is_number(to_get_pane_output@.args[0], pane_id as int)
            && is_number(to_get_pane_output@.args[1], 262144),
{
}

/// Calls about the settings hand over the transaction they belong to.
pub proof fn law_calls_about_settings(
    path: Option<&str>,
    transaction: &str,
    patch: Vec<ClientJsonPatchOperation>,
    config: ClientAttentionConfig,
    to_config_validate: CCall,
    to_config_patch: CCall,
    to_config_commit: CCall,
    to_config_cancel: CCall,
    to_configure_attention: CCall,
)
    requires
        call_ensures(FfiClient::config_validate, (path,), to_config_validate),
        call_ensures(FfiClient::config_patch, (transaction, &patch), to_config_patch),
        call_ensures(FfiClient::config_commit, (transaction,), to_config_commit),
        call_ensures(FfiClient::config_cancel, (transaction,), to_config_cancel),
        call_ensures(FfiClient::configure_attention, (&config,), to_configure_attention),
    ensures
        to_config_validate@.function == CFunction::ConfigValidate
            && to_config_validate@.args.len() == 1
            && is_choice(to_config_validate@.args[0], path),
        to_config_patch@.function == CFunction::ConfigPatch
            && to_config_patch@.args.len() == 2
            && is_text(to_config_patch@.args[0], transaction@)
            && is_text(to_config_patch@.args[1], patch_json(patch@)),
        to_config_commit@.function == CFunction::ConfigCommit
            && to_config_commit@.args.len() == 1
            && is_text(to_config_commit@.args[0], transaction@),
        to_config_cancel@.function == CFunction::ConfigCancel
            && to_config_cancel@.args.len() == 1
            && is_text(to_config_cancel@.args[0], transaction@),
        to_configure_attention@.function == CFunction::AttentionConfigure
            && to_configure_attention@.args.len() == 1
            && is_text(to_configure_attention@.args[0], attention_json(config)),
{
}

/// Calls that look around hand over where to look, and wait for at most ten seconds.
pub proof fn law_calls_that_look_around(
    config_path: Option<&str>,
    runtime_type: &str,
    target: Option<&str>,
    path: &str,
    socket: Option<&str>,
    transport_type: &str,
    host: &str,
    session: &str,
    query: &str,
    to_discover_ssh_hosts: CCall,
    to_list_dir: CCall,
    to_discover_existing: CCall,
    to_discover_tmux_sessions: CCall,
    to_discover_ssh_tmux_panes: CCall,
    to_status_snapshot_json: CCall,
    to_search_all: CCall,
)
    requires
        call_ensures(FfiClient::discover_ssh_hosts, (config_path,), to_discover_ssh_hosts),
        call_ensures(FfiClient::list_dir, (runtime_type, target, path), to_list_dir),
        call_ensures(FfiClient::discover_existing, (runtime_type, target, socket),
            to_discover_existing),
        call_ensures(FfiClient::discover_tmux_sessions, (transport_type, target, socket),
            to_discover_tmux_sessions),
        call_ensures(FfiClient::discover_ssh_tmux_panes, (host, socket, session, config_path),
            to_discover_ssh_tmux_panes),
        call_ensures(FfiClient::status_snapshot_json, (runtime_type, target, socket, session),
            to_status_snapshot_json),
        call_ensures(FfiClient::search_all, (query,), to_search_all),
    ensures
        to_discover_ssh_hosts@.function == CFunction::DiscoverSshHosts
            && to_discover_ssh_hosts@.args.len() == 1
            && is_choice(to_discover_ssh_hosts@.args[0], config_path),
        to_list_dir@.function == CFunction::ListDir
            && to_list_dir@.args.len() == 5
            && is_text(to_list_dir@.args[0], runtime_type@)
            && is_choice(to_list_dir@.args[1], target)
            && to_list_dir@.args[2] is Absent
            && is_text(to_list_dir@.args[3], path@)
            && is_number(to_list_dir@.args[4], 10000),
        to_discover_existing@.function == CFunction::DiscoverWorkspaces
            && to_discover_existing@.args.len() == 5
            && is_text(to_discover_existing@.args[0], runtime_type@)
            && is_choice(to_discover_existing@.args[1], target)
            && is_choice(to_discover_existing@.args[2], socket)
            && to_discover_existing@.args[3] is Absent
            && is_number(to_discover_existing@.args[4], 10000),
        to_discover_tmux_sessions@.function == CFunction::DiscoverTmuxSessions
            && to_discover_tmux_sessions@.args.len() == 5
            && is_text(to_discover_tmux_sessions@.args[0], transport_type@)
            && is_choice(to_discover_tmux_sessions@.args[1], target)
            && is_choice(to_discover_tmux_sessions@.args[2], socket)
            && to_discover_tmux_sessions@.args[3] is Absent
            && is_number(to_discover_tmux_sessions@.args[4], 10000),
        to_discover_ssh_tmux_panes@.function == CFunction::DiscoverSshTmuxPanes
            && to_discover_ssh_tmux_panes@.args.len() == 5
            && is_text(to_discover_ssh_tmux_panes@.args[0], host@)
            && is_choice(to_discover_ssh_tmux_panes@.args[1], socket)
            && is_text(to_discover_ssh_tmux_panes@.args[2], session@)
            && is_choice(to_discover_ssh_tmux_panes@.args[3], config_path)
            && is_number(to_discover_ssh_tmux_panes@.args[4], 10000),
        to_status_snapshot_json@.function == CFunction::StatusSnapshot
            && to_status_snapshot_json@.args.len() == 4
            && is_text(to_status_snapshot_json@.args[0], runtime_type@)
            && is_choice(to_status_snapshot_json@.args[1], target)
            && is_choice(to_status_snapshot_json@.args[2], socket)
            && is_text(to_status_snapshot_json@.args[3], session@),
        to_search_all@.function == CFunction::SearchAll
            && to_search_all@.args.len() == 1
            && is_text(to_search_all@.args[0], query@),
{
}

/// Calls that open or make something hand over what it is.
pub proof fn law_calls_that_open(
    recent_limit: u32,
    request: ClientOpenRequest,
    target: ClientTarget,
    intent: ClientOpenIntent,
    source_workspace_id: &str,
    branch: &str,
    path: &str,
    base: Option<&str>,
    label: Option<&str>,
    runtime_type: &str,
    host: Option<&str>,
    socket: Option<&str>,
    session: &str,
    directory: &str,
    to_candidates: CCall,
    to_open: CCall,
    to_open_target: CCall,
    to_create_native_worktree: CCall,
    to_create_workspace: CCall,
)
    requires
        call_ensures(FfiClient::candidates, (recent_limit,), to_candidates),
        call_ensures(FfiClient::open, (&request,), to_open),
        call_ensures(FfiClient::open_target, (&target, intent), to_open_target),
        call_ensures(FfiClient::create_native_worktree, (source_workspace_id, branch, path, base,
            label), to_create_native_worktree),
        call_ensures(FfiClient::create_workspace, (runtime_type, host, socket, session, directory),
            to_create_workspace),
    ensures
        to_candidates@.function == CFunction::Candidates
            && to_candidates@.args.len() == 1
            && is_number(to_candidates@.args[0], recent_limit as int),
        to_open@.function == CFunction::Open
            && to_open@.args.len() == 1
            && is_text(to_open@.args[0], open_request_json(request)),
        to_open_target@.function == CFunction::OpenTarget
            && to_open_target@.args.len() == 2
            && is_text(to_open_target@.args[0], target_json(target))
            && is_text(to_open_target@.args[1], intent_word(intent)),
        to_create_native_worktree@.function == CFunction::WorktreeCreate
            && to_create_native_worktree@.args.len() == 5
            && is_text(to_create_native_worktree@.args[0], source_workspace_id@)
            && is_text(to_create_native_worktree@.args[1], branch@)
            && is_text(to_create_native_worktree@.args[2], path@)
            && is_choice(to_create_native_worktree@.args[3], base)
            && is_choice(to_create_native_worktree@.args[4], label),
        to_create_workspace@.function == CFunction::WorkspaceCreate
            && to_create_workspace@.args.len() == 7
            && is_text(to_create_workspace@.args[0], runtime_type@)
            && is_choice(to_create_workspace@.args[1], host)
            && is_choice(to_create_workspace@.args[2], socket)
            && to_create_workspace@.args[3] is Absent
            && is_text(to_create_workspace@.args[4], session@)
            && is_text(to_create_workspace@.args[5], directory@)
            && is_number(to_create_workspace@.args[6], 10000),
{
}

/// Colours are reported with the foreground before the background.
pub proof fn law_calls_about_colours(
    pane_id: u32,
    fg_hex: &str,
    bg_hex: &str,
    to_report_pane_colours: CCall,
    to_report_all_pane_colours: CCall,
)
    requires
        call_ensures(FfiClient::report_pane_colours, (pane_id, fg_hex, bg_hex),
            to_report_pane_colours),
        call_ensures(FfiClient::report_all_pane_colours, (fg_hex, bg_hex),
            to_report_all_pane_colours),
    ensures
        to_report_pane_colours@.function == CFunction::ReportPaneColours
            && to_report_pane_colours@.args.len() == 3
            && is_number(to_report_pane_colours@.args[0], pane_id as int)
            && is_text(to_report_pane_colours@.args[1], fg_hex@)
            && is_text(to_report_pane_colours@.args[2], bg_hex@),
        to_report_all_pane_colours@.function == CFunction::ReportAllPaneColours
            && to_report_all_pane_colours@.args.len() == 2
            && is_text(to_report_all_pane_colours@.args[0], fg_hex@)
            && is_text(to_report_all_pane_colours@.args[1], bg_hex@),
{
}

// ---------------------------------------------------------------------------
// Tasks, input and sizes.
// ---------------------------------------------------------------------------

/// A text that is handed over: as it is, or empty where it holds a zero.
pub proof fn law_texts_that_are_handed_over(
    s: &str,
    r: String,
    some: Option<String>,
    none: Option<String>,
)
    requires
        call_ensures(cstring, (s,), r),
        call_ensures(cstring_opt, (Some(s),), some),
        call_ensures(cstring_opt, (None,), none),
    ensures
        s@.contains('\0') ==> r@.len() == 0,
        !s@.contains('\0') ==> r@ == s@,
        none is None,
        some is Some && some->0@ == r@,
{
}

/// Names are given to the tab, the pane or the workspace that is meant.
pub proof fn law_who_gets_a_name(
    workspace: &str,
    tab: u32,
    name: &str,
    made: CoreCall,
    unnamed: CoreCall,
    renamed: CoreCall,
    renamed_tab: CoreCall,
)
    requires
        call_ensures(FfiClient::new_workspace_tab, (workspace, Some(name)), made),
        call_ensures(FfiClient::new_workspace_tab, (workspace, None), unnamed),
        call_ensures(FfiClient::rename_workspace, (workspace, name), renamed),
        call_ensures(FfiClient::rename_workspace_tab, (workspace, tab, name), renamed_tab),
        !workspace@.contains('\0'),
        !name@.contains('\0'),
    ensures
        made@ matches CoreCallView::ExecuteWorkspace { workspace_id, task } && workspace_id
            == workspace@ && task.type_ == 1 && task.name == Some(name@),
        unnamed@ matches CoreCallView::ExecuteWorkspace { workspace_id, task } && workspace_id
            == workspace@ && task.type_ == 1 && task.name is None,
        renamed@ matches CoreCallView::ExecuteWorkspace { workspace_id, task } && workspace_id
            == workspace@ && task.type_ == 16 && task.name == Some(name@),
        renamed_tab@ matches CoreCallView::ExecuteWorkspace { workspace_id, task } && workspace_id
            == workspace@ && task.type_ == 15 && task.target_tab == tab && task.name == Some(name@),
{
}

/// Input goes to its pane, loud or quiet as it is meant; without bytes there
/// is no call.
pub proof fn law_where_input_goes(
    workspace: &str,
    pane: u32,
    data: Vec<u8>,
    loud: CoreCall,
    quiet: CoreCall,
    plain: CoreCall,
    plain_quiet: CoreCall,
)
    requires
        call_ensures(FfiClient::send_workspace_input, (workspace, pane, data), loud),
        call_ensures(FfiClient::send_workspace_input_quiet, (workspace, pane, data), quiet),
        call_ensures(FfiClient::send_input, (pane, data), plain),
        call_ensures(FfiClient::send_input_quiet, (pane, data), plain_quiet),
        !workspace@.contains('\0'),
    ensures
        data@.len() == 0 ==> loud@ is Nothing && quiet@ is Nothing && plain@ is Nothing
            && plain_quiet@ is Nothing,
        data@.len() > 0 ==> loud@ == (CoreCallView::WorkspaceSendInput {
            workspace_id: workspace@,
            pane_id: pane,
            data: data@,
        }) && quiet@ == (CoreCallView::WorkspaceSendInputQuiet {
            workspace_id: workspace@,
            pane_id: pane,
            data: data@,
        }) && plain@ == (CoreCallView::SendInput { pane_id: pane, data: data@ }) && plain_quiet@
            == (CoreCallView::SendInputQuiet { pane_id: pane, data: data@ }),
{
}

/// Sizes go to what is sized, columns before rows; along one axis the number 1
/// stands for the horizontal and 2 for the vertical one.
pub proof fn law_where_sizes_go(
    workspace: &str,
    pane: u32,
    cols: u16,
    rows: u16,
    client: CoreCall,
    one: CoreCall,
    wide: CoreCall,
    high: CoreCall,
    plain: CoreCall,
    plain_pane: CoreCall,
)
    requires
        call_ensures(FfiClient::resize_workspace_client, (workspace, cols, rows), client),
        call_ensures(FfiClient::resize_workspace_pane, (workspace, pane, cols, rows), one),
        call_ensures(
            FfiClient::resize_workspace_pane_axis,
            (workspace, pane, ClientResizeAxis::Horizontal, cols),
            wide,
        ),
        call_ensures(
            FfiClient::resize_workspace_pane_axis,
            (workspace, pane, ClientResizeAxis::Vertical, rows),
            high,
        ),
        call_ensures(FfiClient::resize_client, (cols, rows), plain),
        call_ensures(FfiClient::resize_pane, (pane, cols, rows), plain_pane),
        !workspace@.contains('\0'),
    ensures
        client@ == (CoreCallView::WorkspaceResizeClient { workspace_id: workspace@, cols, rows }),
        one@ == (CoreCallView::WorkspaceResizePane {
            workspace_id: workspace@,
            pane_id: pane,
            cols,
            rows,
        }),
        wide@ == (CoreCallView::WorkspaceResizePaneAxis {
            workspace_id: workspace@,
            pane_id: pane,
            axis: 1,
            size: cols,
        }),
        high@ == (CoreCallView::WorkspaceResizePaneAxis {
            workspace_id: workspace@,
            pane_id: pane,
            axis: 2,
            size: rows,
        }),
        plain@ == (CoreCallView::ResizeClient { cols, rows }),
        plain_pane@ == (CoreCallView::ResizePane { pane_id: pane, cols, rows }),
{
}

/// Workspaces are activated and closed by their names.
pub proof fn law_which_workspace_is_meant(workspace: &str, shown: CoreCall, gone: CoreCall)
    requires
        call_ensures(FfiClient::activate_workspace, (workspace,), shown),
        call_ensures(FfiClient::close_workspace, (workspace,), gone),
        !workspace@.contains('\0'),
    ensures
        shown@ == (CoreCallView::WorkspaceActivate { workspace_id: workspace@ }),
        gone@ == (CoreCallView::WorkspaceClose { workspace_id: workspace@ }),
{
}

/// Connections are made with what is given, each in its place.
pub proof fn law_how_connections_are_made(
    runtime: &str,
    a: &str,
    b: &str,
    c: &str,
    d: &str,
    plain: ConnectCall,
    full: ConnectCall,
    none: ConnectCall,
)
    requires
        call_ensures(FfiClient::new, (runtime, Some(a), Some(b)), plain),
        call_ensures(
            FfiClient::new_connect,
            (runtime, Some(a), Some(b), Some(c), Some(d)),
            full,
        ),
        call_ensures(FfiClient::new_connect, (runtime, None, None, None, None), none),
        !runtime@.contains('\0') && !a@.contains('\0') && !b@.contains('\0') && !c@.contains('\0')
            && !d@.contains('\0'),
    ensures
        plain@ == (ConnectCallView::New { runtime: runtime@, socket: Some(a@), session: Some(b@) }),
        full@ == (ConnectCallView::NewConnect {
            runtime: runtime@,
            socket: Some(a@),
            session: Some(b@),
            ssh_alias: Some(c@),
            start_directory: Some(d@),
        }),
        none@ == (ConnectCallView::NewConnect {
            runtime: runtime@,
            socket: None,
            session: None,
            ssh_alias: None,
            start_directory: None,
        }),
{
}

// ---------------------------------------------------------------------------
// Answers.
// ---------------------------------------------------------------------------

/// As many answers count as were given, as far as there is room; a negative
/// number of them is none.
pub proof fn law_how_many_answers_count(count: i32, room: usize, r: usize)
    requires
        call_ensures(copied_count, (count, room), r),
    ensures
        count <= 0 ==> r == 0,
        0 <= count <= room ==> r == count,
        count >= room ==> r == room,
        r <= room,
{
}

/// A negative offset or number of a line is none.
pub proof fn law_negative_answers_are_none(
    n: i64,
    offset: Option<u32>,
    line: Option<u64>,
)
    requires
        call_ensures(offset_reply, (n,), offset),
        call_ensures(line_seq_reply, (n,), line),
    ensures
        n < 0 ==> offset is None && line is None,
        n >= 0 ==> line is Some && line->0 == n,
        0 <= n <= u32::MAX ==> offset is Some && offset->0 == n,
{
}

/// Tabs and panes are read with their own fields; any number but zero marks
/// the active one.
pub proof fn law_tabs_and_panes_are_read(
    tabs: Vec<CTab>,
    panes: Vec<CPane>,
    count: i32,
    r: Vec<ClientTab>,
    s: Vec<ClientPane>,
    i: int,
)
    requires
        tabs@.len() == 32,
        panes@.len() == 64,
        call_ensures(tabs_reply, (&tabs, count), r),
        call_ensures(panes_reply, (&panes, count), s),
    ensures
        0 <= count <= 32 ==> r@.len() == count,
        count > 32 ==> r@.len() == 32,
        0 <= count <= 64 ==> s@.len() == count,
        count > 64 ==> s@.len() == 64,
        0 <= i < r@.len() ==> r@[i].id == tabs@[i].id && r@[i].name == tabs@[i].name && (
        r@[i].is_active <==> tabs@[i].is_active != 0),
        0 <= i < s@.len() ==> s@[i].id == panes@[i].id && s@[i].cols == panes@[i].cols && s@[i].rows
            == panes@[i].rows && (s@[i].is_active <==> panes@[i].is_active != 0)
            && s@[i].title@.len() == 0,
{
}

/// Zero is success; any other code is an error that says which call failed
/// with which code.
pub proof fn law_which_codes_are_errors(what: &str, code: i32, r: Result<(), String>)
    requires
        call_ensures(check_code, (what, code), r),
    ensures
        r is Ok <==> code == 0,
        r matches Err(text) ==> text@ == what@ + " failed with code "@ + signed_decimal(
            code as int,
        ),
{
}

/// Each answer holds what was asked for under its own name.
pub proof fn law_which_part_of_an_answer(value: Seq<char>)
    ensures
        wanted_part(CFunction::ConfigDescribe, value) == value_or_null(field_of(value, "data"@)),
        wanted_part(CFunction::ConfigValidate, value) == value_or_null(field_of(value, "data"@)),
        wanted_part(CFunction::ConfigPatch, value) == value_or_null(field_of(value, "data"@)),
        wanted_part(CFunction::WorkspaceList, value) == value_or_null(
            field_of(value, "workspaces"@),
        ),
        wanted_part(CFunction::DiscoverWorkspaces, value) == value_or_null(
            field_of(value, "workspaces"@),
        ),
        wanted_part(CFunction::Candidates, value) == value_or_null(field_of(value, "candidates"@)),
        wanted_part(CFunction::RuntimeList, value) == value_or_null(field_of(value, "runtimes"@)),
        wanted_part(CFunction::CommandMarks, value) == value_or_null(field_of(value, "marks"@)),
        wanted_part(CFunction::LastLines, value) == value_or_null(field_of(value, "lines"@)),
        wanted_part(CFunction::SearchAll, value) == value_or_null(field_of(value, "hits"@)),
        wanted_part(CFunction::DiscoverSshHosts, value) == value_or_null(
            field_of(value, "hosts"@),
        ),
        wanted_part(CFunction::ListDir, value) == value_or_null(field_of(value, "entries"@)),
        wanted_part(CFunction::DiscoverTmuxSessions, value) == value_or_null(
            field_of(value, "sessions"@),
        ),
        wanted_part(CFunction::DiscoverSshTmuxPanes, value) == value_or_null(
            field_of(value, "panes"@),
        ),
        wanted_part(CFunction::Open, value) == value,
        wanted_part(CFunction::AttentionSnapshot, value) == value,
{
}

/// A layout is read where the core found one; output is read as far as it was
/// given; and what was made is named by the core, else as it was asked for.
pub proof fn law_how_answers_are_read(
    root: crate::client::call::CLayoutNode,
    found: Option<ClientLayout>,
    missing: Option<ClientLayout>,
    code: i32,
    bytes: Vec<u8>,
    n: i32,
    output: Vec<u8>,
    name: String,
    session: &str,
    given: String,
    asked: String,
)
    requires
        code != 0,
        0 <= n <= bytes@.len(),
        call_ensures(layout_reply, (0, &root), found),
        call_ensures(layout_reply, (code, &root), missing),
        call_ensures(output_reply, (bytes, n), output),
        call_ensures(created_name, (Some(name), session), given),
        call_ensures(created_name, (None, session), asked),
    ensures
        found == Some(root.tree()),
        missing is None,
        output@ == bytes@.take(n as int),
        given@ == name@,
        asked@ == session@,
{
}

/// A transaction is named in the answer to its start, and the revision in the
/// answers to its end and to a reload; without these the answer is an error.
pub proof fn law_what_the_answers_of_settings_name(
    text: Option<&str>,
    value: Seq<char>,
    started: Result<String, ReplyError>,
    ended: Result<String, ReplyError>,
    again: Result<String, ReplyError>,
    probe: Option<String>,
)
    requires
        answer_of(text) == Ok::<Seq<char>, ReplyErrorView>(value),
        call_ensures(begun, (text,), started),
        call_ensures(committed, (text,), ended),
        call_ensures(reloaded, (text,), again),
        call_ensures(probed, (text,), probe),
    ensures
        named_in(value, "transaction"@) matches Some(t) ==> (started matches Ok(s) && s@ == t),
        named_in(value, "transaction"@) is None ==> reply_view(started) == Err::<
            Seq<char>,
            ReplyErrorView,
        >(ReplyErrorView::Transport("Core config begin returned no transaction"@)),
        named_in(value, "revision"@) matches Some(t) ==> (ended matches Ok(s) && s@ == t) && (
        again matches Ok(s) && s@ == t),
        named_in(value, "revision"@) is None ==> ended is Err && again is Err,
        opt_view(probe) == field_of(value, "probe"@),
{
}

// ---------------------------------------------------------------------------
// Settings.
// ---------------------------------------------------------------------------

/// A transaction is begun, patched and committed; what fails after it was
/// begun is cancelled, and the first error is the one that is reported.
pub proof fn law_how_settings_are_changed(
    name: String,
    error: String,
    other: String,
    any: Result<String, String>,
)
    ensures
        next_step(ConfigTransaction::Begin, Ok(name)) == (ConfigTransaction::Patch {
            transaction: name,
        }),
        next_step(ConfigTransaction::Begin, Err(error)) == (ConfigTransaction::Failed { error }),
        next_step((ConfigTransaction::Patch { transaction: name }), Ok(other)) == (
        ConfigTransaction::Commit { transaction: name }),
        next_step((ConfigTransaction::Patch { transaction: name }), Err(error)) == (
        ConfigTransaction::Cancel { transaction: name, error }),
        next_step((ConfigTransaction::Commit { transaction: name }), Ok(other))
            == ConfigTransaction::Describe,
        next_step((ConfigTransaction::Commit { transaction: name }), Err(error)) == (
        ConfigTransaction::Cancel { transaction: name, error }),
        next_step((ConfigTransaction::Cancel { transaction: name, error }), any) == (
        ConfigTransaction::Failed { error }),
{
}

/// Each step of a change makes its own call, on the transaction that was
/// begun; what failed makes none.
pub proof fn law_calls_of_a_change(
    name: String,
    error: String,
    patch: Seq<ClientJsonPatchOperation>,
)
    ensures
        step_call(ConfigTransaction::Begin, patch) matches Some(c) && c.function
            == CFunction::ConfigBegin && c.args.len() == 0,
        step_call((ConfigTransaction::Patch { transaction: name }), patch) matches Some(c)
            && c.function == CFunction::ConfigPatch && is_text(c.args[0], name@) && is_text(
            c.args[1],
            patch_json(patch),
        ),
        step_call((ConfigTransaction::Commit { transaction: name }), patch) matches Some(c)
            && c.function == CFunction::ConfigCommit && is_text(c.args[0], name@),
        step_call((ConfigTransaction::Cancel { transaction: name, error }), patch) matches Some(c)
            && c.function == CFunction::ConfigCancel && is_text(c.args[0], name@),
        step_call(ConfigTransaction::Describe, patch) matches Some(c) && c.function
            == CFunction::ConfigDescribe && c.args.len() == 0,
        step_call((ConfigTransaction::Failed { error }), patch) is None,
{
}

/// A blank path of the settings is refused. In a path of one plain part only
/// the slash before it is new.
pub proof fn law_paths_of_settings(
    path: &str,
    r: Result<String, &'static str>,
    value: String,
    op: ClientJsonPatchOperation,
)
    requires
        call_ensures(dotted_config_pointer, (path,), r),
        call_ensures(replace, (path, value), op),
    ensures
        r is Err <==> all_white(path@),
        r matches Ok(p) ==> p@.len() > 0 && p@[0] == '/',
        op.op@ == "replace"@ && op.path@ == path@ && opt_view(op.value) == Some(value@),
{
    reveal_strlit("/");
}

/// The words of the intents.
pub proof fn law_words_of_intents()
    ensures
        intent_word(ClientOpenIntent::AttachOnly) == "attach_only"@,
        intent_word(ClientOpenIntent::CreateIfMissing) == "create_if_missing"@,
{
}

// ---------------------------------------------------------------------------
// Gathering.
// ---------------------------------------------------------------------------

/// The panes and the layout of each tab, and the output of each pane, are
/// asked for in their order.
pub proof fn law_what_is_asked_for_a_snapshot(
    workspace: &str,
    tabs: Vec<ClientTab>,
    panes: Vec<(u32, Vec<ClientPane>)>,
    for_panes: Vec<CCall>,
    for_layouts: Vec<CCall>,
    for_outputs: Vec<CCall>,
    i: int,
)
    requires
        call_ensures(pane_calls, (workspace, &tabs), for_panes),
        call_ensures(layout_calls, (workspace, &tabs), for_layouts),
        call_ensures(output_calls, (workspace, &panes), for_outputs),
    ensures
        for_panes@.len() == tabs@.len() && for_layouts@.len() == tabs@.len(),
        for_outputs@.len() == all_panes(panes@).len(),
        0 <= i < tabs@.len() ==> for_panes@[i]@.function == CFunction::WorkspaceGetPanes && is_text(
            for_panes@[i]@.args[0],
            workspace@,
        ) && is_number(for_panes@[i]@.args[1], tabs@[i].id as int) && is_number(
            for_panes@[i]@.args[2],
            64,
        ),
        0 <= i < tabs@.len() ==> for_layouts@[i]@.function == CFunction::WorkspaceGetLayout
            && is_text(for_layouts@[i]@.args[0], workspace@) && is_number(
            for_layouts@[i]@.args[1],
            tabs@[i].id as int,
        ),
        0 <= i < all_panes(panes@).len() ==> for_outputs@[i]@.function
            == CFunction::WorkspaceGetPaneOutput && is_text(for_outputs@[i]@.args[0], workspace@)
            && is_number(for_outputs@[i]@.args[1], all_panes(panes@)[i].id as int) && is_number(
            for_outputs@[i]@.args[2],
            262144,
        ),
{
}

/// A snapshot is of the first workspace of the name, with each layout under
/// its tab and each output under its pane; without that workspace it is an
/// error that names it.
pub proof fn law_what_a_snapshot_holds(
    workspaces: Vec<ClientWorkspace>,
    id: &str,
    tabs: Vec<ClientTab>,
    panes: Vec<(u32, Vec<ClientPane>)>,
    layouts: Vec<Option<ClientLayout>>,
    outputs: Vec<Vec<u8>>,
    r: Result<FfiWorkspaceSnapshot, String>,
    k: int,
    i: int,
)
    requires
        layouts@.len() == tabs@.len(),
        outputs@.len() == all_panes(panes@).len(),
        call_ensures(
            ffi_workspace_snapshot,
            (&workspaces, id, tabs, panes, layouts, outputs),
            r,
        ),
    ensures
        0 <= k < workspaces@.len() && workspaces@[k].id@ == id@ && (forall|j: int|
            0 <= j < k ==> (#[trigger] workspaces@[j]).id@ != id@) ==> (r matches Ok(s)
            && s.workspace == workspaces@[k] && s.tabs == tabs && s.panes == panes),
        r matches Ok(s) ==> s.layouts@.len() == tabs@.len() && s.outputs@.len() == outputs@.len(),
        r matches Ok(s) ==> (0 <= i < tabs@.len() ==> s.layouts@[i].0 == tabs@[i].id
            && s.layouts@[i].1 == layouts@[i]),
        r matches Ok(s) ==> (0 <= i < outputs@.len() ==> s.outputs@[i].0 == all_panes(panes@)[i].id
            && s.outputs@[i].1 == outputs@[i]),
        (forall|j: int| 0 <= j < workspaces@.len() ==> (#[trigger] workspaces@[j]).id@ != id@) ==> (
        r matches Err(text) && text@ == "Core workspace not found: "@ + id@),
{
    let f = crate::client::snapshot::workspace_is(id@);
    if 0 <= k < workspaces@.len() && workspaces@[k].id@ == id@ && (forall|j: int|
        0 <= j < k ==> (#[trigger] workspaces@[j]).id@ != id@) {
        lemma_first_where(workspaces@, f, k);
    }
    if forall|j: int| 0 <= j < workspaces@.len() ==> (#[trigger] workspaces@[j]).id@ != id@ {
        lemma_no_first(workspaces@, f);
    }
}

} // verus!
