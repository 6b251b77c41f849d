//! The host-level error taxonomy. Every script-side failure is captured at
//! the bridge and converted into one of these variants, so callers only
//! ever see host-level descriptions.

use vstd::prelude::*;
use vstd::string::StringExecFns;

verus! {

/// Why a bridge operation failed, as the caller sees it.
#[derive(Debug)]
pub enum VmError {
    /// Compiling or evaluating the configured module failed; the payload is
    /// the full rendered diagnostic.
    Startup(String),
    /// `find` named an absent binding, or one bound to a non-callable
    /// export; the payload is the name that was looked up.
    NotAFunction(String),
    /// The weak reference behind an export expired before the call.
    ExportGone,
    /// Script code threw synchronously, or the returned promise was
    /// rejected; the payload is the rendered exception text.
    Script(String),
    /// The worker has exited, so its mailbox no longer accepts commands.
    MachineTerminated,
    /// A reply channel was closed before a reply arrived.
    ChannelClosed,
}

/// The rendered text of each error variant.
pub open spec fn render_spec(e: VmError) -> Seq<char> {
    match e {
        VmError::Startup(s) => s@,
        VmError::NotAFunction(n) => n@ + " is not a function"@,
        VmError::ExportGone => "export gone"@,
        VmError::Script(m) => m@,
        VmError::MachineTerminated => "machine terminated"@,
        VmError::ChannelClosed => "channel closed"@,
    }
}

impl VmError {
    /// The user-facing description of this error.
    pub fn render(&self) -> (r: String)
        ensures
            r@ == render_spec(*self),
    {
        match self {
            VmError::Startup(s) => s.clone(),
            VmError::NotAFunction(n) => n.clone().concat(" is not a function"),
            VmError::ExportGone => "export gone".to_owned(),
            VmError::Script(m) => m.clone(),
            VmError::MachineTerminated => "machine terminated".to_owned(),
            VmError::ChannelClosed => "channel closed".to_owned(),
        }
    }
}

} // verus!
