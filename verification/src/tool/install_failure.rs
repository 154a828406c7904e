use vstd::prelude::*;

verus! {

/// Where users learn how to give the build the secrets it needs.
pub const BUILD_SECRETS_URL: &'static str = "https://docs.qlty.sh/cloud/build-secrets";

/// A failure of a tool installation that was recognised, with a summary
/// for the user.
#[derive(Debug)]
pub struct InstallFailure {
    pub kind: InstallFailureKind,
    pub summary: String,
}

/// The kinds of installation failure that are recognised.
#[derive(Debug, Clone, Copy, PartialEq, Eq, Structural)]
pub enum InstallFailureKind {
    AuthenticationFailed,
    AccessDenied,
    PackageMaybePrivate,
    UnsupportedDependencyProtocol,
}

/// The message type reported for a failure of kind `kind`.
pub open spec fn message_ty_text(kind: InstallFailureKind) -> Seq<char> {
    match kind {
        InstallFailureKind::AuthenticationFailed => "executor.install.auth_error"@,
        InstallFailureKind::AccessDenied => "executor.install.auth_error"@,
        InstallFailureKind::PackageMaybePrivate => "executor.install.package_not_found"@,
        InstallFailureKind::UnsupportedDependencyProtocol => "executor.install.unsupported_protocol"@,
    }
}

impl InstallFailureKind {
    /// The message type under which a failure of this kind is reported.
    pub fn message_ty(&self) -> (ty: &'static str)
        ensures
            ty@ == message_ty_text(*self),
    {
        match self {
            InstallFailureKind::AuthenticationFailed | InstallFailureKind::AccessDenied => {
                "executor.install.auth_error"
            },
            InstallFailureKind::PackageMaybePrivate => "executor.install.package_not_found",
            InstallFailureKind::UnsupportedDependencyProtocol => {
                "executor.install.unsupported_protocol"
            },
        }
    }
}

/// The common prefix of every installation message type.
pub open spec fn install_ty_prefix() -> Seq<char> {
    "executor.install."@
}

/// Every classified failure is reported under a message type that begins
/// with the prefix that filters installation messages.
pub proof fn law_message_ty_has_install_prefix(kind: InstallFailureKind)
    ensures
        crate::text::starts_with(message_ty_text(kind), install_ty_prefix()),
{
    reveal_strlit("executor.install.");
    reveal_strlit("executor.install.auth_error");
    reveal_strlit("executor.install.package_not_found");
    reveal_strlit("executor.install.unsupported_protocol");
    let p = install_ty_prefix();
    let t = message_ty_text(kind);
    assert(t.take(p.len() as int) =~= p);
}

} // verus!
