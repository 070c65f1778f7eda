//! Which stamp pipeline dabs are routed through: painting or erasing.
//! Nothing about a stroke's shape, smoothing or spacing depends on it.

use vstd::prelude::*;

verus! {

/// The tool that the brush-size slider and every dab currently apply to.
#[derive(Clone, Copy, Debug, PartialEq, Eq, Structural)]
pub enum Tool {
    Paint,
    Erase,
}

impl Tool {
    /// The other tool.
    pub open spec fn other(self) -> Tool {
        match self {
            Tool::Paint => Tool::Erase,
            Tool::Erase => Tool::Paint,
        }
    }

    /// Switches between painting and erasing.
    pub fn toggled(self) -> (r: Tool)
        ensures
            r == self.other(),
            r != self,
    {
        match self {
            Tool::Paint => Tool::Erase,
            Tool::Erase => Tool::Paint,
        }
    }

    /// The button caption that names this tool.
    pub fn label(self) -> (r: &'static str)
        ensures
            self == Tool::Paint ==> r@ == "Tool: Brush"@,
            self == Tool::Erase ==> r@ == "Tool: Eraser"@,
    {
        match self {
            Tool::Paint => "Tool: Brush",
            Tool::Erase => "Tool: Eraser",
        }
    }
}

/// Toggling the tool twice gives back the tool one started with.
pub proof fn lemma_tool_toggle_involutive(t: Tool)
    ensures
        t.other().other() == t,
        t.other() != t,
{
}

} // verus!
