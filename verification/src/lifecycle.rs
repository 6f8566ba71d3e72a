//! Why a unit of a session stops.

use vstd::prelude::*;

verus! {

/// The reason with which a unit of a session stops.
///
/// A reader or writer stops with [`StopReason::ChannelClosed`]; the session stops with
/// one of the other two when it sees a child end.
#[derive(Clone, Copy, Debug, PartialEq, Eq, Structural)]
pub enum StopReason {
    /// A child of the session panicked.
    ChildPanic,
    /// A child of the session ended, for whatever reason.
    ChildTerminate,
    /// The stream to the peer is gone.
    ChannelClosed,
}

impl StopReason {
    /// The reason as it is shown to whoever watches the unit stop.
    pub open spec fn text(self) -> Seq<char> {
        match self {
            StopReason::ChildPanic => "child_panic"@,
            StopReason::ChildTerminate => "child_terminate"@,
            StopReason::ChannelClosed => "channel_closed"@,
        }
    }

    /// The reason as a string: `child_panic`, `child_terminate` or `channel_closed`.
    pub fn as_str(&self) -> (text: &'static str)
        ensures
            text@ == self.text(),
    {
        match self {
            StopReason::ChildPanic => "child_panic",
            StopReason::ChildTerminate => "child_terminate",
            StopReason::ChannelClosed => "channel_closed",
        }
    }
}

} // verus!
