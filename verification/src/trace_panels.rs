//! List, editor and parameters of the traces.

use std::sync::Arc;
use vstd::prelude::*;

use crate::acquisition::{CompletedSweep, TraceId, MAX_TRACES};
use crate::messages::{ConnectionState, SweepState};
use crate::text::Text;
use crate::workspace;
use crate::workspace::{trace_index, TraceEditor, TraceSettings, TraceState, Workspace};

verus! {

/// Whether settings can be edited: not while an acquisition or a session ends.
pub open spec fn editable(sweep: SweepState, connection: ConnectionState) -> bool {
    !(sweep is Stopping) && !(connection is Disconnecting)
}

pub fn can_edit(sweep: SweepState, connection: &ConnectionState) -> (can: bool)
    ensures
        can == editable(sweep, *connection),
{
    !matches!(sweep, SweepState::Stopping) && !matches!(connection, ConnectionState::Disconnecting)
}

/// Whether a trace can be added, and what the button says.
pub fn add_button(workspace: &Workspace) -> (button: (bool, Text))
    ensures
        button == if workspace.traces@.len() < MAX_TRACES {
            (true, Text::AddTrace)
        } else {
            (false, Text::TraceLimit)
        },
{
    if workspace.traces.len() < MAX_TRACES {
        (true, Text::AddTrace)
    } else {
        (false, Text::TraceLimit)
    }
}

/// What the button that hides or shows a trace says.
pub fn visibility_text(visible: bool) -> (key: Text)
    ensures
        key == if visible {
            Text::Hide
        } else {
            Text::Show
        },
{
    if visible {
        Text::Hide
    } else {
        Text::Show
    }
}

/// What the user does with the card of a trace.
#[derive(Debug, Clone, Copy, PartialEq, Eq, Structural)]
pub enum CardAction {
    Select,
    /// Hide or show it.
    Toggle,
    Edit,
    Delete,
}

/// Whether this is the workspace after the user used a card. Only selecting a
/// card selects its trace.
pub open spec fn is_after_card(
    after: Workspace,
    before: Workspace,
    id: TraceId,
    action: CardAction,
) -> bool {
    match action {
        CardAction::Select => after == (Workspace { selected: Some(id), ..before }),
        CardAction::Toggle => {
            &&& after == (Workspace { traces: after.traces, ..before })
            &&& after.traces@.len() == before.traces@.len()
            &&& forall|i: int|
                0 <= i < before.traces@.len() ==> #[trigger] after.traces@[i]
                    == if before.traces@[i].id == id {
                    TraceState {
                        settings: TraceSettings {
                            visible: !before.traces@[i].settings.visible,
                            ..before.traces@[i].settings
                        },
                        ..before.traces@[i]
                    }
                } else {
                    before.traces@[i]
                }
        },
        CardAction::Edit => {
            &&& after == (Workspace { editor: after.editor, ..before })
            &&& forall|i: int|
                0 <= i < before.traces@.len() && (#[trigger] before.traces@[i]).id == id
                    ==> after.editor == Some(
                    TraceEditor { id: Some(id), settings: before.traces@[i].settings },
                )
            &&& !workspace::has_trace(before.traces@, id) ==> after.editor == before.editor
        },
        CardAction::Delete => {
            &&& after == (Workspace { traces: after.traces, selected: after.selected, ..before })
            &&& forall|i: int|
                0 <= i < before.traces@.len() && (#[trigger] before.traces@[i]).id == id
                    ==> after.traces@ == before.traces@.remove(i)
            &&& !workspace::has_trace(before.traces@, id) ==> after.traces@ == before.traces@
            &&& after.selected == if before.selected != Some(id) {
                before.selected
            } else if after.traces@.len() > 0 {
                Some(after.traces@.last().id)
            } else {
                None
            }
        },
    }
}

/// Carry out what the user did with the card of a trace.
pub fn use_card(workspace: &mut Workspace, id: TraceId, action: CardAction)
    requires
        old(workspace).wf(),
        workspace::has_trace(old(workspace).traces@, id),
    ensures
        is_after_card(*final(workspace), *old(workspace), id, action),
        final(workspace).wf(),
{
    match action {
        CardAction::Select => {
            workspace.selected = Some(id);
        },
        CardAction::Toggle => {
            if let Some(at) = trace_index(&workspace.traces, id) {
                let ghost before = workspace.traces@;
                workspace.traces[at].settings.visible = !workspace.traces[at].settings.visible;
                assert forall|i: int| 0 <= i < before.len() && i != at implies (
                #[trigger] before[i]).id != id by {
                    if i > at {
                        assert(before[at as int].id != before[i].id);
                    }
                }
                assert forall|i: int| 0 <= i < before.len() implies (
                #[trigger] workspace.traces@[i]).id == before[i].id
                    && workspace.traces@[i].analysis == before[i].analysis by {}
                if let Some(kept) = workspace.selected {
                    let ghost k = choose|k: int|
                        0 <= k < before.len() && (#[trigger] before[k]).id == kept;
                    assert(workspace.traces@[k].id == kept);
                }
            }
        },
        CardAction::Edit => {
            if let Some(at) = trace_index(&workspace.traces, id) {
                let ghost before = workspace.traces@;
                workspace.editor = Some(
                    TraceEditor { id: Some(id), settings: workspace.traces[at].settings },
                );
                assert forall|i: int| 0 <= i < before.len() && (#[trigger] before[i]).id
                    == id implies i == at by {
                    if i > at {
                        assert(before[at as int].id != before[i].id);
                    }
                }
            }
        },
        CardAction::Delete => {
            workspace.remove_trace(id);
        },
    }
}

/// What the user did in the editor of a trace.
#[derive(Debug, Clone, Copy, PartialEq, Eq, Structural)]
pub enum TraceEditorAction {
    Continue,
    Save,
    /// The editor was closed by a button or by its frame.
    Cancel,
}

/// What follows from the editor of a trace.
#[derive(Debug)]
pub enum EditorOutcome {
    Nothing,
    /// The trace in this place gets these settings.
    Update { place: usize, settings: TraceSettings },
    /// A trace with these settings is added.
    Create(TraceSettings),
}

/// Close a frame of the trace editor. Saving closes it, also where its trace is
/// gone.
pub fn finish_trace_editor(workspace: &mut Workspace, action: TraceEditorAction) -> (outcome:
    EditorOutcome)
    ensures
        *final(workspace) == (Workspace {
            editor: if action is Continue {
                old(workspace).editor
            } else {
                None
            },
            ..*old(workspace)
        }),
        match old(workspace).editor {
            Some(editor) => if action is Save {
                match editor.id {
                    None => outcome == EditorOutcome::Create(editor.settings),
                    Some(id) => match outcome {
                        EditorOutcome::Update { place, settings } => {
                            &&& place < old(workspace).traces@.len()
                            &&& old(workspace).traces@[place as int].id == id
                            &&& settings == editor.settings
                        },
                        EditorOutcome::Nothing => !workspace::has_trace(
                            old(workspace).traces@,
                            id,
                        ),
                        EditorOutcome::Create(_) => false,
                    },
                }
            } else {
                outcome is Nothing
            },
            None => outcome is Nothing,
        },
{
    if matches!(action, TraceEditorAction::Continue) {
        return EditorOutcome::Nothing;
    }
    let Some(editor) = workspace.editor.take() else {
        return EditorOutcome::Nothing;
    };
    if !matches!(action, TraceEditorAction::Save) {
        return EditorOutcome::Nothing;
    }
    match editor.id {
        None => EditorOutcome::Create(editor.settings),
        Some(id) => match trace_index(&workspace.traces, id) {
            Some(place) => EditorOutcome::Update { place, settings: editor.settings },
            None => EditorOutcome::Nothing,
        },
    }
}

/// Caption of the trace editor.
pub fn editor_title(editor: &TraceEditor) -> (key: Text)
    ensures
        key == if editor.id is Some {
            Text::TraceSettings
        } else {
            Text::AddTrace
        },
{
    if editor.id.is_some() {
        Text::TraceSettings
    } else {
        Text::AddTrace
    }
}

/// Prepare the parameters of a trace: its markers read the column of its
/// projection. Says which complete sweep they stand on, and whether there is
/// one that the projection does not read.
pub fn prepare_parameters(trace: &mut TraceState) -> (shown: (Option<Arc<CompletedSweep>>, bool))
    ensures
        final(trace).analysis.fixed_column == old(trace).settings.display.spec_fixed_column(),
        final(trace).analysis.column == match old(trace).settings.display.spec_fixed_column() {
            Some(column) => column,
            None => old(trace).analysis.column,
        },
        *final(trace) == (TraceState {
            analysis: crate::analysis_tools::AnalysisTools {
                fixed_column: final(trace).analysis.fixed_column,
                column: final(trace).analysis.column,
                ..old(trace).analysis
            },
            ..*old(trace)
        }),
        shown == (
            old(trace).shown_sweep(),
            old(trace).completed is Some && old(trace).shown_sweep() is None,
        ),
{
    let complete = trace.completed_for_display();
    let column: Option<usize> = trace.settings.display.fixed_column();
    trace.analysis.set_column(column);
    let unread = trace.completed.is_some() && complete.is_none();
    (complete, unread)
}

/// Settings can be edited but while an acquisition or a session ends.
pub proof fn law_edits_wait_for_the_end(sweep: SweepState, connection: &ConnectionState, can: bool)
    requires
        call_ensures(can_edit, (sweep, connection), can),
    ensures
        can <==> (sweep is Idle || sweep is Running) && (*connection is Disconnected
            || *connection is Connecting || *connection is Connected || *connection is Error),
{
}

/// The tenth trace is the last that can be added, and the button says so. It
/// hides what is shown and shows what is hidden.
pub proof fn law_ten_traces_are_enough(
    workspace: &Workspace,
    button: (bool, Text),
    visible: bool,
    key: Text,
)
    requires
        call_ensures(add_button, (workspace,), button),
        call_ensures(visibility_text, (visible,), key),
    ensures
        button.0 <==> workspace.traces@.len() < 10,
        button.1 is AddTrace <==> button.0,
        button.1 is TraceLimit <==> !button.0,
        key is Hide <==> visible,
        key is Show <==> !visible,
{
}

/// What a card does to the traces: selecting selects, hiding hides that trace
/// alone, editing opens its settings, deleting removes it alone. No card touches
/// what was measured for another trace.
pub proof fn law_cards_act_on_their_trace(
    workspace: &mut Workspace,
    id: TraceId,
    action: CardAction,
    i: int,
)
    requires
        old(workspace).wf(),
        workspace::has_trace(old(workspace).traces@, id),
        call_ensures(use_card, (workspace, id, action), ()),
        0 <= i < old(workspace).traces@.len(),
    ensures
        ({
            let before = old(workspace).traces@;
            let after = final(workspace).traces@;
            let own = before[i].id == id;
            &&& action is Select ==> final(workspace).selected == Some(id) && after == before
            &&& !(action is Select) && !(action is Delete) ==> final(workspace).selected == old(workspace).selected
            &&& action is Toggle && own ==> after[i].settings.visible
                == !before[i].settings.visible && after[i].completed == before[i].completed
                && after[i].settings.display == before[i].settings.display
            &&& action is Toggle && !own ==> after[i] == before[i]
            &&& action is Toggle ==> after.len() == before.len()
            &&& action is Edit && own ==> final(workspace).editor is Some && final(workspace).editor->0.id == Some(id) && final(workspace).editor->0.settings == before[i].settings
            &&& action is Edit ==> after == before
            &&& action is Delete && own ==> after == before.remove(i) && after.len() == before.len()
                - 1
            &&& action is Delete && old(workspace).selected == Some(id) && before.len() > 1
                ==> final(workspace).selected == Some(after.last().id)
            &&& action is Delete && old(workspace).selected != Some(id) ==> final(workspace).selected == old(workspace).selected
            &&& action is Delete ==> !workspace::has_trace(after, id)
            &&& final(workspace).range == old(workspace).range && final(workspace).run == old(workspace).run && final(workspace).next_id == old(workspace).next_id
        }),
{
    let before = old(workspace).traces@;
    let after = final(workspace).traces@;
    let at = choose|k: int| 0 <= k < before.len() && (#[trigger] before[k]).id == id;
    assert(before[at].id == id);
    if action is Delete {
        assert(after == before.remove(at));
        assert forall|k: int| 0 <= k < after.len() implies (#[trigger] after[k]).id != id by {
            if k < at {
                assert(after[k] == before[k]);
            } else {
                assert(after[k] == before[k + 1]);
            }
        }
    }
}

/// Saving an editor gives its settings to its trace, or to a new one, and closes
/// it. Cancelling changes nothing.
pub proof fn law_trace_editors_give_their_settings(
    workspace: &mut Workspace,
    action: TraceEditorAction,
    outcome: EditorOutcome,
)
    requires
        call_ensures(finish_trace_editor, (workspace, action), outcome),
    ensures
        !(action is Save) ==> outcome is Nothing,
        !(action is Continue) ==> final(workspace).editor is None,
        action is Continue ==> *final(workspace) == *old(workspace),
        action is Save && old(workspace).editor is Some && old(workspace).editor->0.id is None
            ==> outcome == EditorOutcome::Create(old(workspace).editor->0.settings),
        outcome matches EditorOutcome::Update { place, settings } ==> place < old(workspace).traces@.len() && Some(old(workspace).traces@[place as int].id) == old(workspace).editor->0.id && settings == old(workspace).editor->0.settings,
        action is Save && old(workspace).editor is Some && old(workspace).editor->0.id is Some
            && workspace::has_trace(old(workspace).traces@, old(workspace).editor->0.id->0)
            ==> outcome is Update,
        final(workspace).traces == old(workspace).traces,
{
}

/// An editor of a trace and one of a new trace have captions of their own.
pub proof fn law_editors_have_titles(editor: &TraceEditor, key: Text)
    requires
        call_ensures(editor_title, (editor,), key),
    ensures
        key is TraceSettings <==> editor.id is Some,
        key is AddTrace <==> editor.id is None,
{
}

/// Parameters stand on the last complete sweep that the projection reads, and
/// say where there is one that it does not read. Markers read the column of the
/// projection.
pub proof fn law_parameters_stand_on_complete_sweeps(
    trace: &mut TraceState,
    shown: (Option<Arc<CompletedSweep>>, bool),
    fixed: Option<usize>,
)
    requires
        call_ensures(prepare_parameters, (trace,), shown),
        call_ensures(
            workspace::TraceDisplay::fixed_column,
            (old(trace).settings.display,),
            fixed,
        ),
    ensures
        shown.0 is Some ==> shown.0 == old(trace).completed && !shown.1,
        shown.1 ==> old(trace).completed is Some && !old(trace).settings.display.reads(
            old(trace).completed->0.data@,
        ),
        old(trace).completed is Some ==> (shown.0 is Some || shown.1),
        old(trace).completed is None ==> shown.0 is None && !shown.1,
        fixed matches Some(column) ==> final(trace).analysis.column == column,
        fixed is None ==> final(trace).analysis.column == old(trace).analysis.column,
        final(trace).analysis.fixed_column == fixed,
        final(trace).completed == old(trace).completed,
        final(trace).analysis.markers == old(trace).analysis.markers,
{
}

} // verus!
