//! The commands of the command line, and what a command reads from its arguments
//! before it touches a workspace.
use vstd::prelude::*;
use crate::error::{CliError, text};
use crate::codes::{EXIT_INVALID_ARGS, EXIT_VALIDATION_FAILED};

verus! {

/// Every command the command line runs.
#[derive(Debug, Clone, Copy, PartialEq, Eq, Structural)]
pub enum CommandKind {
    Init,
    Status,
    Doctor,
    Verify,
    NodeCreate,
    NodeGet,
    NodeList,
    NodeUpdate,
    LinkAdd,
    LinkList,
    AliasAdd,
    AliasList,
    TagAdd,
    TagList,
    SourceAdd,
    SourceList,
    Recall,
    Remember,
    TeachStart,
    TeachAdd,
    TeachPropose,
    TeachApply,
    ReflectInventory,
    ReflectProposalCreate,
    ReflectProposalApply,
    ToolCreateDraft,
    ToolList,
    ToolGet,
    ToolRun,
    ToolValidate,
    McpList,
    McpAdd,
    McpGet,
    AdapterSeed,
    AdapterSync,
    AdapterStatus,
    ArtifactsCleanup,
    FeedbackRecord,
    ObserveStatus,
    ObserveReport,
    ObserveExport,
    UpgradePlan,
    UpgradeApply,
    Ui,
}

/// The stable id of a command, as envelopes and observation events name it.
pub open spec fn command_name(kind: CommandKind) -> Seq<char> {
    match kind {
        CommandKind::Init => "init"@,
        CommandKind::Status => "status"@,
        CommandKind::Doctor => "doctor"@,
        CommandKind::Verify => "verify"@,
        CommandKind::NodeCreate => "node_create"@,
        CommandKind::NodeGet => "node_get"@,
        CommandKind::NodeList => "node_list"@,
        CommandKind::NodeUpdate => "node_update"@,
        CommandKind::LinkAdd => "link_add"@,
        CommandKind::LinkList => "link_list"@,
        CommandKind::AliasAdd => "alias_add"@,
        CommandKind::AliasList => "alias_list"@,
        CommandKind::TagAdd => "tag_add"@,
        CommandKind::TagList => "tag_list"@,
        CommandKind::SourceAdd => "source_add"@,
        CommandKind::SourceList => "source_list"@,
        CommandKind::Recall => "recall"@,
        CommandKind::Remember => "remember"@,
        CommandKind::TeachStart => "teach_start"@,
        CommandKind::TeachAdd => "teach_add"@,
        CommandKind::TeachPropose => "teach_propose"@,
        CommandKind::TeachApply => "teach_apply"@,
        CommandKind::ReflectInventory => "reflect_inventory"@,
        CommandKind::ReflectProposalCreate => "reflect_proposal_create"@,
        CommandKind::ReflectProposalApply => "reflect_proposal_apply"@,
        CommandKind::ToolCreateDraft => "tool_create_draft"@,
        CommandKind::ToolList => "tool_list"@,
        CommandKind::ToolGet => "tool_get"@,
        CommandKind::ToolRun => "tool_run"@,
        CommandKind::ToolValidate => "tool_validate"@,
        CommandKind::McpList => "mcp_list"@,
        CommandKind::McpAdd => "mcp_add"@,
        CommandKind::McpGet => "mcp_get"@,
        CommandKind::AdapterSeed => "adapter_seed"@,
        CommandKind::AdapterSync => "adapter_sync"@,
        CommandKind::AdapterStatus => "adapter_status"@,
        CommandKind::ArtifactsCleanup => "artifacts_cleanup"@,
        CommandKind::FeedbackRecord => "feedback_record"@,
        CommandKind::ObserveStatus => "observe_status"@,
        CommandKind::ObserveReport => "observe_report"@,
        CommandKind::ObserveExport => "observe_export"@,
        CommandKind::UpgradePlan => "upgrade_plan"@,
        CommandKind::UpgradeApply => "upgrade_apply"@,
        CommandKind::Ui => "ui"@,
    }
}

/// The words that name a command on the command line, in order: `aopmem node list`
/// is run by the words `node` and `list`.
pub open spec fn command_path(kind: CommandKind) -> Seq<Seq<char>> {
    match kind {
        CommandKind::Init => seq!["init"@],
        CommandKind::Status => seq!["status"@],
        CommandKind::Doctor => seq!["doctor"@],
        CommandKind::Verify => seq!["verify"@],
        CommandKind::NodeCreate => seq!["node"@, "create"@],
        CommandKind::NodeGet => seq!["node"@, "get"@],
        CommandKind::NodeList => seq!["node"@, "list"@],
        CommandKind::NodeUpdate => seq!["node"@, "update"@],
        CommandKind::LinkAdd => seq!["link"@, "add"@],
        CommandKind::LinkList => seq!["link"@, "list"@],
        CommandKind::AliasAdd => seq!["alias"@, "add"@],
        CommandKind::AliasList => seq!["alias"@, "list"@],
        CommandKind::TagAdd => seq!["tag"@, "add"@],
        CommandKind::TagList => seq!["tag"@, "list"@],
        CommandKind::SourceAdd => seq!["source"@, "add"@],
        CommandKind::SourceList => seq!["source"@, "list"@],
        CommandKind::Recall => seq!["recall"@],
        CommandKind::Remember => seq!["remember"@],
        CommandKind::TeachStart => seq!["teach"@, "start"@],
        CommandKind::TeachAdd => seq!["teach"@, "add"@],
        CommandKind::TeachPropose => seq!["teach"@, "propose"@],
        CommandKind::TeachApply => seq!["teach"@, "apply"@],
        CommandKind::ReflectInventory => seq!["reflect"@, "inventory"@],
        CommandKind::ReflectProposalCreate => seq!["reflect"@, "proposal"@, "create"@],
        CommandKind::ReflectProposalApply => seq!["reflect"@, "proposal"@, "apply"@],
        CommandKind::ToolCreateDraft => seq!["tool"@, "create-draft"@],
        CommandKind::ToolList => seq!["tool"@, "list"@],
        CommandKind::ToolGet => seq!["tool"@, "get"@],
        CommandKind::ToolRun => seq!["tool"@, "run"@],
        CommandKind::ToolValidate => seq!["tool"@, "validate"@],
        CommandKind::McpList => seq!["mcp"@, "list"@],
        CommandKind::McpAdd => seq!["mcp"@, "add"@],
        CommandKind::McpGet => seq!["mcp"@, "get"@],
        CommandKind::AdapterSeed => seq!["adapter"@, "seed"@],
        CommandKind::AdapterSync => seq!["adapter"@, "sync"@],
        CommandKind::AdapterStatus => seq!["adapter"@, "status"@],
        CommandKind::ArtifactsCleanup => seq!["artifacts"@, "cleanup"@],
        CommandKind::FeedbackRecord => seq!["feedback"@, "record"@],
        CommandKind::ObserveStatus => seq!["observe"@, "status"@],
        CommandKind::ObserveReport => seq!["observe"@, "report"@],
        CommandKind::ObserveExport => seq!["observe"@, "export"@],
        CommandKind::UpgradePlan => seq!["upgrade"@, "plan"@],
        CommandKind::UpgradeApply => seq!["upgrade"@, "apply"@],
        CommandKind::Ui => seq!["ui"@],
    }
}

/// A word in snake case: each `-` becomes `_`.
pub open spec fn snake_word(word: Seq<char>) -> Seq<char> {
    word.map_values(|c: char| if c == '-' { '_' } else { c })
}

/// Words in snake case, joined by `_`.
pub open spec fn snake_joined(words: Seq<Seq<char>>) -> Seq<char>
    decreases words.len(),
{
    if words.len() == 0 {
        seq![]
    } else if words.len() == 1 {
        snake_word(words[0])
    } else {
        snake_joined(words.drop_last()) + seq!['_'] + snake_word(words.last())
    }
}

/// The command a stable id names, if any.
pub open spec fn command_of_name(s: Seq<char>) -> Option<CommandKind> {
    if s == "init"@ {
        Some(CommandKind::Init)
    } else if s == "status"@ {
        Some(CommandKind::Status)
    } else if s == "doctor"@ {
        Some(CommandKind::Doctor)
    } else if s == "verify"@ {
        Some(CommandKind::Verify)
    } else if s == "node_create"@ {
        Some(CommandKind::NodeCreate)
    } else if s == "node_get"@ {
        Some(CommandKind::NodeGet)
    } else if s == "node_list"@ {
        Some(CommandKind::NodeList)
    } else if s == "node_update"@ {
        Some(CommandKind::NodeUpdate)
    } else if s == "link_add"@ {
        Some(CommandKind::LinkAdd)
    } else if s == "link_list"@ {
        Some(CommandKind::LinkList)
    } else if s == "alias_add"@ {
        Some(CommandKind::AliasAdd)
    } else if s == "alias_list"@ {
        Some(CommandKind::AliasList)
    } else if s == "tag_add"@ {
        Some(CommandKind::TagAdd)
    } else if s == "tag_list"@ {
        Some(CommandKind::TagList)
    } else if s == "source_add"@ {
        Some(CommandKind::SourceAdd)
    } else if s == "source_list"@ {
        Some(CommandKind::SourceList)
    } else if s == "recall"@ {
        Some(CommandKind::Recall)
    } else if s == "remember"@ {
        Some(CommandKind::Remember)
    } else if s == "teach_start"@ {
        Some(CommandKind::TeachStart)
    } else if s == "teach_add"@ {
        Some(CommandKind::TeachAdd)
    } else if s == "teach_propose"@ {
        Some(CommandKind::TeachPropose)
    } else if s == "teach_apply"@ {
        Some(CommandKind::TeachApply)
    } else if s == "reflect_inventory"@ {
        Some(CommandKind::ReflectInventory)
    } else if s == "reflect_proposal_create"@ {
        Some(CommandKind::ReflectProposalCreate)
    } else if s == "reflect_proposal_apply"@ {
        Some(CommandKind::ReflectProposalApply)
    } else if s == "tool_create_draft"@ {
        Some(CommandKind::ToolCreateDraft)
    } else if s == "tool_list"@ {
        Some(CommandKind::ToolList)
    } else if s == "tool_get"@ {
        Some(CommandKind::ToolGet)
    } else if s == "tool_run"@ {
        Some(CommandKind::ToolRun)
    } else if s == "tool_validate"@ {
        Some(CommandKind::ToolValidate)
    } else if s == "mcp_list"@ {
        Some(CommandKind::McpList)
    } else if s == "mcp_add"@ {
        Some(CommandKind::McpAdd)
    } else if s == "mcp_get"@ {
        Some(CommandKind::McpGet)
    } else if s == "adapter_seed"@ {
        Some(CommandKind::AdapterSeed)
    } else if s == "adapter_sync"@ {
        Some(CommandKind::AdapterSync)
    } else if s == "adapter_status"@ {
        Some(CommandKind::AdapterStatus)
    } else if s == "artifacts_cleanup"@ {
        Some(CommandKind::ArtifactsCleanup)
    } else if s == "feedback_record"@ {
        Some(CommandKind::FeedbackRecord)
    } else if s == "observe_status"@ {
        Some(CommandKind::ObserveStatus)
    } else if s == "observe_report"@ {
        Some(CommandKind::ObserveReport)
    } else if s == "observe_export"@ {
        Some(CommandKind::ObserveExport)
    } else if s == "upgrade_plan"@ {
        Some(CommandKind::UpgradePlan)
    } else if s == "upgrade_apply"@ {
        Some(CommandKind::UpgradeApply)
    } else if s == "ui"@ {
        Some(CommandKind::Ui)
    } else {
        None
    }
}

/// Each command's id is its command-line path in snake case: `node list` is
/// `node_list`, `tool create-draft` is `tool_create_draft`.
pub proof fn lemma_command_name_is_path(kind: CommandKind)
    ensures
        command_name(kind) == snake_joined(command_path(kind)),
{
    reveal_with_fuel(snake_joined, 4);
    match kind {
        CommandKind::Init => { reveal_strlit("init"); },
        CommandKind::Status => { reveal_strlit("status"); },
        CommandKind::Doctor => { reveal_strlit("doctor"); },
        CommandKind::Verify => { reveal_strlit("verify"); },
        CommandKind::NodeCreate => { reveal_strlit("node_create"); reveal_strlit("node"); reveal_strlit("create"); },
        CommandKind::NodeGet => { reveal_strlit("node_get"); reveal_strlit("node"); reveal_strlit("get"); },
        CommandKind::NodeList => { reveal_strlit("node_list"); reveal_strlit("node"); reveal_strlit("list"); },
        CommandKind::NodeUpdate => { reveal_strlit("node_update"); reveal_strlit("node"); reveal_strlit("update"); },
        CommandKind::LinkAdd => { reveal_strlit("link_add"); reveal_strlit("link"); reveal_strlit("add"); },
        CommandKind::LinkList => { reveal_strlit("link_list"); reveal_strlit("link"); reveal_strlit("list"); },
        CommandKind::AliasAdd => { reveal_strlit("alias_add"); reveal_strlit("alias"); reveal_strlit("add"); },
        CommandKind::AliasList => { reveal_strlit("alias_list"); reveal_strlit("alias"); reveal_strlit("list"); },
        CommandKind::TagAdd => { reveal_strlit("tag_add"); reveal_strlit("tag"); reveal_strlit("add"); },
        CommandKind::TagList => { reveal_strlit("tag_list"); reveal_strlit("tag"); reveal_strlit("list"); },
        CommandKind::SourceAdd => { reveal_strlit("source_add"); reveal_strlit("source"); reveal_strlit("add"); },
        CommandKind::SourceList => { reveal_strlit("source_list"); reveal_strlit("source"); reveal_strlit("list"); },
        CommandKind::Recall => { reveal_strlit("recall"); },
        CommandKind::Remember => { reveal_strlit("remember"); },
        CommandKind::TeachStart => { reveal_strlit("teach_start"); reveal_strlit("teach"); reveal_strlit("start"); },
        CommandKind::TeachAdd => { reveal_strlit("teach_add"); reveal_strlit("teach"); reveal_strlit("add"); },
        CommandKind::TeachPropose => { reveal_strlit("teach_propose"); reveal_strlit("teach"); reveal_strlit("propose"); },
        CommandKind::TeachApply => { reveal_strlit("teach_apply"); reveal_strlit("teach"); reveal_strlit("apply"); },
        CommandKind::ReflectInventory => { reveal_strlit("reflect_inventory"); reveal_strlit("reflect"); reveal_strlit("inventory"); },
        CommandKind::ReflectProposalCreate => { reveal_strlit("reflect_proposal_create"); reveal_strlit("reflect"); reveal_strlit("proposal"); reveal_strlit("create"); },
        CommandKind::ReflectProposalApply => { reveal_strlit("reflect_proposal_apply"); reveal_strlit("reflect"); reveal_strlit("proposal"); reveal_strlit("apply"); },
        CommandKind::ToolCreateDraft => { reveal_strlit("tool_create_draft"); reveal_strlit("tool"); reveal_strlit("create-draft"); },
        CommandKind::ToolList => { reveal_strlit("tool_list"); reveal_strlit("tool"); reveal_strlit("list"); },
        CommandKind::ToolGet => { reveal_strlit("tool_get"); reveal_strlit("tool"); reveal_strlit("get"); },
        CommandKind::ToolRun => { reveal_strlit("tool_run"); reveal_strlit("tool"); reveal_strlit("run"); },
        CommandKind::ToolValidate => { reveal_strlit("tool_validate"); reveal_strlit("tool"); reveal_strlit("validate"); },
        CommandKind::McpList => { reveal_strlit("mcp_list"); reveal_strlit("mcp"); reveal_strlit("list"); },
        CommandKind::McpAdd => { reveal_strlit("mcp_add"); reveal_strlit("mcp"); reveal_strlit("add"); },
        CommandKind::McpGet => { reveal_strlit("mcp_get"); reveal_strlit("mcp"); reveal_strlit("get"); },
        CommandKind::AdapterSeed => { reveal_strlit("adapter_seed"); reveal_strlit("adapter"); reveal_strlit("seed"); },
        CommandKind::AdapterSync => { reveal_strlit("adapter_sync"); reveal_strlit("adapter"); reveal_strlit("sync"); },
        CommandKind::AdapterStatus => { reveal_strlit("adapter_status"); reveal_strlit("adapter"); reveal_strlit("status"); },
        CommandKind::ArtifactsCleanup => { reveal_strlit("artifacts_cleanup"); reveal_strlit("artifacts"); reveal_strlit("cleanup"); },
        CommandKind::FeedbackRecord => { reveal_strlit("feedback_record"); reveal_strlit("feedback"); reveal_strlit("record"); },
        CommandKind::ObserveStatus => { reveal_strlit("observe_status"); reveal_strlit("observe"); reveal_strlit("status"); },
        CommandKind::ObserveReport => { reveal_strlit("observe_report"); reveal_strlit("observe"); reveal_strlit("report"); },
        CommandKind::ObserveExport => { reveal_strlit("observe_export"); reveal_strlit("observe"); reveal_strlit("export"); },
        CommandKind::UpgradePlan => { reveal_strlit("upgrade_plan"); reveal_strlit("upgrade"); reveal_strlit("plan"); },
        CommandKind::UpgradeApply => { reveal_strlit("upgrade_apply"); reveal_strlit("upgrade"); reveal_strlit("apply"); },
        CommandKind::Ui => { reveal_strlit("ui"); },
    }
    assert(command_name(kind) =~= snake_joined(command_path(kind)));
}

/// A command id names one command only: the id of `kind` leads back to `kind`.
pub proof fn lemma_command_name_identifies(kind: CommandKind)
    ensures
        command_of_name(command_name(kind)) == Some(kind),
{
    reveal_strlit("init");
    assert("init"@.len() == 4);
    reveal_strlit("status");
    assert("status"@.len() == 6);
    reveal_strlit("doctor");
    assert("doctor"@.len() == 6);
    reveal_strlit("verify");
    assert("verify"@.len() == 6);
    reveal_strlit("node_create");
    assert("node_create"@.len() == 11);
    reveal_strlit("node_get");
    assert("node_get"@.len() == 8);
    reveal_strlit("node_list");
    assert("node_list"@.len() == 9);
    reveal_strlit("node_update");
    assert("node_update"@.len() == 11);
    reveal_strlit("link_add");
    assert("link_add"@.len() == 8);
    reveal_strlit("link_list");
    assert("link_list"@.len() == 9);
    reveal_strlit("alias_add");
    assert("alias_add"@.len() == 9);
    reveal_strlit("alias_list");
    assert("alias_list"@.len() == 10);
    reveal_strlit("tag_add");
    assert("tag_add"@.len() == 7);
    reveal_strlit("tag_list");
    assert("tag_list"@.len() == 8);
    reveal_strlit("source_add");
    assert("source_add"@.len() == 10);
    reveal_strlit("source_list");
    assert("source_list"@.len() == 11);
    reveal_strlit("recall");
    assert("recall"@.len() == 6);
    reveal_strlit("remember");
    assert("remember"@.len() == 8);
    reveal_strlit("teach_start");
    assert("teach_start"@.len() == 11);
    reveal_strlit("teach_add");
    assert("teach_add"@.len() == 9);
    reveal_strlit("teach_propose");
    assert("teach_propose"@.len() == 13);
    reveal_strlit("teach_apply");
    assert("teach_apply"@.len() == 11);
    reveal_strlit("reflect_inventory");
    assert("reflect_inventory"@.len() == 17);
    reveal_strlit("reflect_proposal_create");
    assert("reflect_proposal_create"@.len() == 23);
    reveal_strlit("reflect_proposal_apply");
    assert("reflect_proposal_apply"@.len() == 22);
    reveal_strlit("tool_create_draft");
    assert("tool_create_draft"@.len() == 17);
    reveal_strlit("tool_list");
    assert("tool_list"@.len() == 9);
    reveal_strlit("tool_get");
    assert("tool_get"@.len() == 8);
    reveal_strlit("tool_run");
    assert("tool_run"@.len() == 8);
    reveal_strlit("tool_validate");
    assert("tool_validate"@.len() == 13);
    reveal_strlit("mcp_list");
    assert("mcp_list"@.len() == 8);
    reveal_strlit("mcp_add");
    assert("mcp_add"@.len() == 7);
    reveal_strlit("mcp_get");
    assert("mcp_get"@.len() == 7);
    reveal_strlit("adapter_seed");
    assert("adapter_seed"@.len() == 12);
    reveal_strlit("adapter_sync");
    assert("adapter_sync"@.len() == 12);
    reveal_strlit("adapter_status");
    assert("adapter_status"@.len() == 14);
    reveal_strlit("artifacts_cleanup");
    assert("artifacts_cleanup"@.len() == 17);
    reveal_strlit("feedback_record");
    assert("feedback_record"@.len() == 15);
    reveal_strlit("observe_status");
    assert("observe_status"@.len() == 14);
    reveal_strlit("observe_report");
    assert("observe_report"@.len() == 14);
    reveal_strlit("observe_export");
    assert("observe_export"@.len() == 14);
    reveal_strlit("upgrade_plan");
    assert("upgrade_plan"@.len() == 12);
    reveal_strlit("upgrade_apply");
    assert("upgrade_apply"@.len() == 13);
    reveal_strlit("ui");
    assert("ui"@.len() == 2);
    match kind {
        CommandKind::Init => {},
        CommandKind::Status => {},
        CommandKind::Doctor => { assert("doctor"@[0] != "status"@[0]); },
        CommandKind::Verify => { assert("verify"@[0] != "status"@[0]); assert("verify"@[0] != "doctor"@[0]); },
        CommandKind::NodeCreate => {},
        CommandKind::NodeGet => {},
        CommandKind::NodeList => {},
        CommandKind::NodeUpdate => { assert("node_update"@[5] != "node_create"@[5]); },
        CommandKind::LinkAdd => { assert("link_add"@[0] != "node_get"@[0]); },
        CommandKind::LinkList => { assert("link_list"@[0] != "node_list"@[0]); },
        CommandKind::AliasAdd => { assert("alias_add"@[0] != "node_list"@[0]); assert("alias_add"@[0] != "link_list"@[0]); },
        CommandKind::AliasList => {},
        CommandKind::TagAdd => {},
        CommandKind::TagList => { assert("tag_list"@[0] != "node_get"@[0]); assert("tag_list"@[0] != "link_add"@[0]); },
        CommandKind::SourceAdd => { assert("source_add"@[0] != "alias_list"@[0]); },
        CommandKind::SourceList => { assert("source_list"@[0] != "node_create"@[0]); assert("source_list"@[0] != "node_update"@[0]); },
        CommandKind::Recall => { assert("recall"@[0] != "status"@[0]); assert("recall"@[0] != "doctor"@[0]); assert("recall"@[0] != "verify"@[0]); },
        CommandKind::Remember => { assert("remember"@[0] != "node_get"@[0]); assert("remember"@[0] != "link_add"@[0]); assert("remember"@[0] != "tag_list"@[0]); },
        CommandKind::TeachStart => { assert("teach_start"@[0] != "node_create"@[0]); assert("teach_start"@[0] != "node_update"@[0]); assert("teach_start"@[0] != "source_list"@[0]); },
        CommandKind::TeachAdd => { assert("teach_add"@[0] != "node_list"@[0]); assert("teach_add"@[0] != "link_list"@[0]); assert("teach_add"@[0] != "alias_add"@[0]); },
        CommandKind::TeachPropose => {},
        CommandKind::TeachApply => { assert("teach_apply"@[0] != "node_create"@[0]); assert("teach_apply"@[0] != "node_update"@[0]); assert("teach_apply"@[0] != "source_list"@[0]); assert("teach_apply"@[6] != "teach_start"@[6]); },
        CommandKind::ReflectInventory => {},
        CommandKind::ReflectProposalCreate => {},
        CommandKind::ReflectProposalApply => {},
        CommandKind::ToolCreateDraft => { assert("tool_create_draft"@[0] != "reflect_inventory"@[0]); },
        CommandKind::ToolList => { assert("tool_list"@[0] != "node_list"@[0]); assert("tool_list"@[0] != "link_list"@[0]); assert("tool_list"@[0] != "alias_add"@[0]); assert("tool_list"@[1] != "teach_add"@[1]); },
        CommandKind::ToolGet => { assert("tool_get"@[0] != "node_get"@[0]); assert("tool_get"@[0] != "link_add"@[0]); assert("tool_get"@[1] != "tag_list"@[1]); assert("tool_get"@[0] != "remember"@[0]); },
        CommandKind::ToolRun => { assert("tool_run"@[0] != "node_get"@[0]); assert("tool_run"@[0] != "link_add"@[0]); assert("tool_run"@[1] != "tag_list"@[1]); assert("tool_run"@[0] != "remember"@[0]); assert("tool_run"@[5] != "tool_get"@[5]); },
        CommandKind::ToolValidate => { assert("tool_validate"@[1] != "teach_propose"@[1]); },
        CommandKind::McpList => { assert("mcp_list"@[0] != "node_get"@[0]); assert("mcp_list"@[0] != "link_add"@[0]); assert("mcp_list"@[0] != "tag_list"@[0]); assert("mcp_list"@[0] != "remember"@[0]); assert("mcp_list"@[0] != "tool_get"@[0]); assert("mcp_list"@[0] != "tool_run"@[0]); },
        CommandKind::McpAdd => { assert("mcp_add"@[0] != "tag_add"@[0]); },
        CommandKind::McpGet => { assert("mcp_get"@[0] != "tag_add"@[0]); assert("mcp_get"@[4] != "mcp_add"@[4]); },
        CommandKind::AdapterSeed => {},
        CommandKind::AdapterSync => { assert("adapter_sync"@[9] != "adapter_seed"@[9]); },
        CommandKind::AdapterStatus => {},
        CommandKind::ArtifactsCleanup => { assert("artifacts_cleanup"@[0] != "reflect_inventory"@[0]); assert("artifacts_cleanup"@[0] != "tool_create_draft"@[0]); },
        CommandKind::FeedbackRecord => {},
        CommandKind::ObserveStatus => { assert("observe_status"@[0] != "adapter_status"@[0]); },
        CommandKind::ObserveReport => { assert("observe_report"@[0] != "adapter_status"@[0]); assert("observe_report"@[8] != "observe_status"@[8]); },
        CommandKind::ObserveExport => { assert("observe_export"@[0] != "adapter_status"@[0]); assert("observe_export"@[8] != "observe_status"@[8]); assert("observe_export"@[8] != "observe_report"@[8]); },
        CommandKind::UpgradePlan => { assert("upgrade_plan"@[0] != "adapter_seed"@[0]); assert("upgrade_plan"@[0] != "adapter_sync"@[0]); },
        CommandKind::UpgradeApply => { assert("upgrade_apply"@[0] != "teach_propose"@[0]); assert("upgrade_apply"@[0] != "tool_validate"@[0]); },
        CommandKind::Ui => {},
    }
}

/// Two commands with the same id are the same command.
pub proof fn lemma_command_names_distinct(a: CommandKind, b: CommandKind)
    ensures
        command_name(a) == command_name(b) ==> a == b,
{
    lemma_command_name_identifies(a);
    lemma_command_name_identifies(b);
}

/// The stable id of a command.
pub fn command_id(kind: CommandKind) -> (r: &'static str)
    ensures
        r@ == command_name(kind),
        r@ == snake_joined(command_path(kind)),
        command_of_name(r@) == Some(kind),
{
    proof {
        lemma_command_name_is_path(kind);
        lemma_command_name_identifies(kind);
    }
    match kind {
        CommandKind::Init => "init",
        CommandKind::Status => "status",
        CommandKind::Doctor => "doctor",
        CommandKind::Verify => "verify",
        CommandKind::NodeCreate => "node_create",
        CommandKind::NodeGet => "node_get",
        CommandKind::NodeList => "node_list",
        CommandKind::NodeUpdate => "node_update",
        CommandKind::LinkAdd => "link_add",
        CommandKind::LinkList => "link_list",
        CommandKind::AliasAdd => "alias_add",
        CommandKind::AliasList => "alias_list",
        CommandKind::TagAdd => "tag_add",
        CommandKind::TagList => "tag_list",
        CommandKind::SourceAdd => "source_add",
        CommandKind::SourceList => "source_list",
        CommandKind::Recall => "recall",
        CommandKind::Remember => "remember",
        CommandKind::TeachStart => "teach_start",
        CommandKind::TeachAdd => "teach_add",
        CommandKind::TeachPropose => "teach_propose",
        CommandKind::TeachApply => "teach_apply",
        CommandKind::ReflectInventory => "reflect_inventory",
        CommandKind::ReflectProposalCreate => "reflect_proposal_create",
        CommandKind::ReflectProposalApply => "reflect_proposal_apply",
        CommandKind::ToolCreateDraft => "tool_create_draft",
        CommandKind::ToolList => "tool_list",
        CommandKind::ToolGet => "tool_get",
        CommandKind::ToolRun => "tool_run",
        CommandKind::ToolValidate => "tool_validate",
        CommandKind::McpList => "mcp_list",
        CommandKind::McpAdd => "mcp_add",
        CommandKind::McpGet => "mcp_get",
        CommandKind::AdapterSeed => "adapter_seed",
        CommandKind::AdapterSync => "adapter_sync",
        CommandKind::AdapterStatus => "adapter_status",
        CommandKind::ArtifactsCleanup => "artifacts_cleanup",
        CommandKind::FeedbackRecord => "feedback_record",
        CommandKind::ObserveStatus => "observe_status",
        CommandKind::ObserveReport => "observe_report",
        CommandKind::ObserveExport => "observe_export",
        CommandKind::UpgradePlan => "upgrade_plan",
        CommandKind::UpgradeApply => "upgrade_apply",
        CommandKind::Ui => "ui",
    }
}

/// The arguments of `remember`; the confidence is carried as given.
#[derive(Debug)]
pub struct RememberArgs<C> {
    pub note: Option<String>,
    pub node_type: Option<String>,
    pub status: Option<String>,
    pub title: Option<String>,
    pub summary: Option<String>,
    pub body: Option<String>,
    pub source_ref: Option<String>,
    pub confidence: Option<C>,
    pub trust_level: Option<String>,
}

/// A node to create.
#[derive(Debug)]
pub struct NewNode<C> {
    pub node_type: String,
    pub status: String,
    pub title: String,
    pub summary: Option<String>,
    pub body: Option<String>,
    pub source_ref: Option<String>,
    pub confidence: Option<C>,
    pub trust_level: Option<String>,
}

/// The text of an optional string, by view.
pub open spec fn opt_view(s: Option<String>) -> Option<Seq<char>> {
    match s {
        Some(x) => Some(x@),
        None => None,
    }
}

/// Copies an optional string.
fn copy_opt(s: &Option<String>) -> (r: Option<String>)
    ensures
        opt_view(r) == opt_view(*s),
{
    match s {
        Some(x) => Some(text(x.as_str())),
        None => None,
    }
}

/// The node `remember` creates: the note is the title unless a title is given, in
/// which case the note is the body; the type defaults to `raw_note` and the status to
/// `draft`. Note text together with `--body` is refused, and so is a node without a
/// title, whose error carries `missing_title`, the text storage gives that failure.
pub fn remember_to_new_node<C: Copy>(args: &RememberArgs<C>, missing_title: &str) -> (r: Result<NewNode<C>, CliError>)
    ensures
        args.note is Some && args.body is Some ==> (r matches Err(e) && e.has(EXIT_INVALID_ARGS, "INVALID_ARGS"@,
            "remember note text cannot be combined with --body"@,
            "pass note text as the positional argument or use --body, but not both"@)),
        !(args.note is Some && args.body is Some) && args.title is None && args.note is None
            ==> (r matches Err(e) && e.has(EXIT_VALIDATION_FAILED, "VALIDATION_ERROR"@, missing_title@,
                "provide allowed node fields from the AOPMem storage spec"@)),
        r matches Ok(n) ==> {
            &&& !(args.note is Some && args.body is Some)
            &&& n.title@ == match args.title { Some(t) => t@, None => args.note->0@ }
            &&& opt_view(n.body) == match args.body {
                Some(b) => Some(b@),
                None => if args.title is Some { opt_view(args.note) } else { None },
            }
            &&& n.node_type@ == match args.node_type { Some(t) => t@, None => "raw_note"@ }
            &&& n.status@ == match args.status { Some(s) => s@, None => "draft"@ }
            &&& opt_view(n.summary) == opt_view(args.summary)
            &&& opt_view(n.source_ref) == opt_view(args.source_ref)
            &&& n.confidence == args.confidence
            &&& opt_view(n.trust_level) == opt_view(args.trust_level)
        },
        (args.title is Some || args.note is Some) && !(args.note is Some && args.body is Some) ==> r is Ok,
{
    if args.note.is_some() && args.body.is_some() {
        return Err(CliError::remember_note_conflict());
    }
    let title = match &args.title {
        Some(t) => text(t.as_str()),
        None => match &args.note {
            Some(n) => text(n.as_str()),
            None => return Err(CliError::validation(missing_title)),
        },
    };
    let body = match &args.body {
        Some(b) => Some(text(b.as_str())),
        None => if args.title.is_some() { copy_opt(&args.note) } else { None },
    };
    let node_type = match &args.node_type {
        Some(t) => text(t.as_str()),
        None => text("raw_note"),
    };
    let status = match &args.status {
        Some(s) => text(s.as_str()),
        None => text("draft"),
    };
    Ok(NewNode {
        node_type,
        status,
        title,
        summary: copy_opt(&args.summary),
        body,
        source_ref: copy_opt(&args.source_ref),
        confidence: args.confidence,
        trust_level: copy_opt(&args.trust_level),
    })
}

} // verus!
