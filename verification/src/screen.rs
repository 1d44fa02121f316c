//! The screens of the client.

use vstd::prelude::*;

verus! {

/// Which screen is shown.
#[derive(Clone, Copy, Debug, PartialEq, Eq, Structural)]
pub enum View {
    Transcript,
    Dashboard,
    Tasks,
    Subagent,
    BlockViewer,
    Workflows,
    WorkflowArtifact,
}

} // verus!
