//! View state for the CodeFlow panels.
//!
//! The host's rendering layer owns the widgets; this type only holds the text
//! that the three panels display, and the setters the host calls when new
//! content arrives (fresh editor text, a finished run, profiling output).

use vstd::prelude::*;

verus! {

/// The text shown in the three CodeFlow panels.
pub struct CodeFlowUi {
    /// Contents of the code editor panel.
    pub code_editor_content: String,
    /// Contents of the execution timeline panel.
    pub execution_timeline_content: String,
    /// Contents of the profiling panel.
    pub profiling_info_content: String,
}

impl Default for CodeFlowUi {
    fn default() -> (ui: Self)
        ensures
            ui.code_editor_content@ == Seq::<char>::empty(),
            ui.execution_timeline_content@ == Seq::<char>::empty(),
            ui.profiling_info_content@ == Seq::<char>::empty(),
    {
        CodeFlowUi {
            code_editor_content: String::new(),
            execution_timeline_content: String::new(),
            profiling_info_content: String::new(),
        }
    }
}

impl CodeFlowUi {
    /// A view state whose three panels are all empty.
    pub fn new() -> (ui: Self)
        ensures
            ui.code_editor_content@ == Seq::<char>::empty(),
            ui.execution_timeline_content@ == Seq::<char>::empty(),
            ui.profiling_info_content@ == Seq::<char>::empty(),
    {
        Self::default()
    }

    /// Replaces the editor panel's text; the other panels keep theirs.
    pub fn update_code_editor(&mut self, content: String)
        ensures
            final(self).code_editor_content@ == content@,
            final(self).execution_timeline_content@ == old(self).execution_timeline_content@,
            final(self).profiling_info_content@ == old(self).profiling_info_content@,
    {
        self.code_editor_content = content;
    }

    /// Replaces the timeline panel's text; the other panels keep theirs.
    pub fn update_execution_timeline(&mut self, content: String)
        ensures
            final(self).execution_timeline_content@ == content@,
            final(self).code_editor_content@ == old(self).code_editor_content@,
            final(self).profiling_info_content@ == old(self).profiling_info_content@,
    {
        self.execution_timeline_content = content;
    }

    /// Replaces the profiling panel's text; the other panels keep theirs.
    pub fn update_profiling_info(&mut self, content: String)
        ensures
            final(self).profiling_info_content@ == content@,
            final(self).code_editor_content@ == old(self).code_editor_content@,
            final(self).execution_timeline_content@ == old(self).execution_timeline_content@,
    {
        self.profiling_info_content = content;
    }
}

} // verus!
