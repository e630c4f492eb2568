//! Approval and sandbox settings, and when they add up to "YOLO" mode.

use vstd::prelude::*;

verus! {

/// When the agent asks the user before running a command.
#[derive(Clone, Copy, PartialEq, Eq, Debug, Structural)]
pub enum AskForApproval {
    UnlessTrusted,
    OnFailure,
    OnRequest,
    Never,
}

/// File-system access in a managed sandbox.
#[derive(Clone, Copy, PartialEq, Eq, Debug, Structural)]
pub enum ManagedFileSystemPermissions {
    Restricted,
    Unrestricted,
}

/// Network access in a managed sandbox.
#[derive(Clone, Copy, PartialEq, Eq, Debug, Structural)]
pub enum NetworkSandboxPolicy {
    Restricted,
    Enabled,
}

/// The sandbox the agent's commands run in.
#[derive(Clone, Copy, PartialEq, Eq, Debug, Structural)]
pub enum PermissionProfile {
    Disabled,
    Managed { file_system: ManagedFileSystemPermissions, network: NetworkSandboxPolicy },
}

/// The permission settings of a session's configuration.
#[derive(Clone, Copy, PartialEq, Eq, Debug, Structural)]
pub struct PermissionsConfig {
    pub approval_policy: AskForApproval,
    pub permission_profile: PermissionProfile,
}

/// The agent never asks and runs without a sandbox, or with a managed sandbox
/// that grants unrestricted files and network.
pub open spec fn yolo_permissions(approval_policy: AskForApproval, profile: PermissionProfile) -> bool {
    &&& approval_policy == AskForApproval::Never
    &&& (profile == PermissionProfile::Disabled || profile == (PermissionProfile::Managed {
        file_system: ManagedFileSystemPermissions::Unrestricted,
        network: NetworkSandboxPolicy::Enabled,
    }))
}

/// Whether these approval and sandbox settings are "YOLO" mode: no approvals
/// and no effective sandbox.
pub fn has_yolo_permissions(approval_policy: AskForApproval, permission_profile: &PermissionProfile) -> (r: bool)
    ensures
        r == yolo_permissions(approval_policy, *permission_profile),
{
    let never = match approval_policy {
        AskForApproval::Never => true,
        _ => false,
    };
    let open_sandbox = match permission_profile {
        PermissionProfile::Disabled => true,
        PermissionProfile::Managed {
            file_system: ManagedFileSystemPermissions::Unrestricted,
            network: NetworkSandboxPolicy::Enabled,
        } => true,
        _ => false,
    };
    never && open_sandbox
}

/// Whether a configuration runs in "YOLO" mode.
pub fn is_yolo_mode(config: &PermissionsConfig) -> (r: bool)
    ensures
        r == yolo_permissions(config.approval_policy, config.permission_profile),
{
    has_yolo_permissions(config.approval_policy, &config.permission_profile)
}

/// "YOLO" mode needs both halves: the agent never asks for approval, and
/// nothing is sandboxed. Any other approval policy, and any managed sandbox
/// that still restricts the file system or the network, is not "YOLO" mode;
/// never asking with no sandbox, or with a managed sandbox that grants
/// unrestricted files and network, is.
pub proof fn law_yolo_needs_no_approvals_and_no_sandbox(approval_policy: AskForApproval, profile: PermissionProfile)
    ensures
        approval_policy != AskForApproval::Never ==> !yolo_permissions(approval_policy, profile),
        profile matches PermissionProfile::Managed { network: NetworkSandboxPolicy::Restricted, .. }
            ==> !yolo_permissions(approval_policy, profile),
        profile matches PermissionProfile::Managed { file_system: ManagedFileSystemPermissions::Restricted, .. }
            ==> !yolo_permissions(approval_policy, profile),
        approval_policy == AskForApproval::Never && profile == PermissionProfile::Disabled
            ==> yolo_permissions(approval_policy, profile),
        approval_policy == AskForApproval::Never && profile == (PermissionProfile::Managed {
            file_system: ManagedFileSystemPermissions::Unrestricted,
            network: NetworkSandboxPolicy::Enabled,
        }) ==> yolo_permissions(approval_policy, profile),
{
}

} // verus!
