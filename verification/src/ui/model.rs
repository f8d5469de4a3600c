use vstd::prelude::*;

verus! {

/// What a component model asks of its view after handling a message.
#[derive(Debug, Copy, Clone, PartialEq, Eq, Structural)]
pub enum ChangeView {
    Rebuild,
    Modify,
    NoChange,
}

/// What a component's view still owes: a rebuild, a modification, and
/// whether the last update changed it so that layout must be recalculated.
#[derive(Default, Debug, Copy, Clone, PartialEq, Eq, Structural)]
pub struct ChangeViewState {
    pub need_rebuild: bool,
    pub need_modify: bool,
    pub need_recalc: bool,
}

/// The state after recording the request `change`.
pub open spec fn recorded(state: ChangeViewState, change: ChangeView) -> ChangeViewState {
    match change {
        ChangeView::Rebuild => ChangeViewState { need_rebuild: true, ..state },
        ChangeView::Modify => ChangeViewState { need_modify: true, ..state },
        ChangeView::NoChange => state,
    }
}

impl ChangeViewState {
    /// Records a request of the model; a recorded need stays until the
    /// view is updated.
    pub fn update(&mut self, change_view: ChangeView)
        ensures
            *final(self) == recorded(*old(self), change_view),
    {
        match change_view {
            ChangeView::Rebuild => self.need_rebuild = true,
            ChangeView::Modify => self.need_modify = true,
            ChangeView::NoChange => (),
        }
    }
}

/// Recording requests only ever adds needs, and the needs recorded for a
/// set of requests do not depend on their order or repetition.
pub proof fn lemma_record_order_free(state: ChangeViewState, a: ChangeView, b: ChangeView)
    ensures
        state.need_rebuild ==> recorded(state, a).need_rebuild,
        state.need_modify ==> recorded(state, a).need_modify,
        recorded(state, a).need_recalc == state.need_recalc,
        recorded(recorded(state, a), b) == recorded(recorded(state, b), a),
        recorded(recorded(state, a), a) == recorded(state, a),
        recorded(state, a).need_rebuild == (state.need_rebuild || a == ChangeView::Rebuild),
        recorded(state, a).need_modify == (state.need_modify || a == ChangeView::Modify),
{
}

/// What bringing a component's view up to date takes: building it anew,
/// letting the model modify it, and bringing nested components up to date
/// (needless after a rebuild, which starts from a fresh view).
#[derive(Debug, Copy, Clone, PartialEq, Eq, Structural)]
pub struct ViewUpdatePlan {
    pub rebuild: bool,
    pub modify: bool,
    pub propagate: bool,
}

/// The work a view update takes on with the needs recorded in `state`.
pub open spec fn plan_for(state: ChangeViewState) -> ViewUpdatePlan {
    ViewUpdatePlan { rebuild: state.need_rebuild, modify: state.need_modify, propagate: !state.need_rebuild }
}

/// Whether a view update that followed `plan` changed the view, where
/// `nested_updated` tells whether a nested component changed.
pub open spec fn update_changed(plan: ViewUpdatePlan, nested_updated: bool) -> bool {
    plan.rebuild || plan.modify || (plan.propagate && nested_updated)
}

impl ChangeViewState {
    /// Decides the work of a view update from the recorded needs, and
    /// clears the needs it takes on.
    pub fn begin_update(&mut self) -> (plan: ViewUpdatePlan)
        ensures
            plan == plan_for(*old(self)),
            plan.rebuild == old(self).need_rebuild,
            plan.modify == old(self).need_modify,
            plan.propagate == !old(self).need_rebuild,
            !final(self).need_rebuild,
            !final(self).need_modify,
            final(self).need_recalc == old(self).need_recalc,
    {
        let plan = ViewUpdatePlan {
            rebuild: self.need_rebuild,
            modify: self.need_modify,
            propagate: !self.need_rebuild,
        };
        self.need_rebuild = false;
        self.need_modify = false;
        plan
    }

    /// Ends a view update that followed `plan`, where `nested_updated`
    /// tells whether a nested component changed. Answers whether the view
    /// changed, and records that its layout must then be recalculated.
    pub fn finish_update(&mut self, plan: ViewUpdatePlan, nested_updated: bool) -> (updated: bool)
        ensures
            updated == update_changed(plan, nested_updated),
            final(self).need_recalc == updated,
            final(self).need_rebuild == old(self).need_rebuild,
            final(self).need_modify == old(self).need_modify,
    {
        let mut is_updated = plan.rebuild || plan.modify;
        if plan.propagate {
            is_updated = nested_updated || is_updated;
        }
        self.need_recalc = is_updated;
        is_updated
    }
}

/// A view update settles every recorded need: after `begin_update` nothing
/// is owed, the view counts as changed whenever a rebuild or a modification
/// was owed, and otherwise exactly when a nested component changed.
pub proof fn lemma_update_settles(before: ChangeViewState, nested: bool)
    ensures
        (before.need_rebuild || before.need_modify) ==> update_changed(plan_for(before), nested),
        !before.need_rebuild && !before.need_modify ==> update_changed(plan_for(before), nested) == nested,
        before.need_rebuild ==> !plan_for(before).propagate,
{
}

/// A view update does exactly the work that was recorded: it rebuilds
/// only when a rebuild was requested, lets the model modify the view
/// whenever a modification was requested, and brings nested components up
/// to date unless the view was rebuilt. A `Modify` request on its own never
/// throws the view away.
pub proof fn lemma_plan_does_recorded_work(state: ChangeViewState, change: ChangeView)
    ensures
        plan_for(state).rebuild == state.need_rebuild,
        plan_for(state).modify == state.need_modify,
        plan_for(state).propagate == !state.need_rebuild,
        plan_for(recorded(state, ChangeView::Modify)).modify,
        plan_for(recorded(state, ChangeView::Modify)).rebuild == state.need_rebuild,
        plan_for(recorded(state, ChangeView::Rebuild)).rebuild,
        !plan_for(recorded(state, ChangeView::Rebuild)).propagate,
        plan_for(recorded(state, ChangeView::NoChange)) == plan_for(state),
        !state.need_rebuild ==> plan_for(recorded(state, ChangeView::Modify)).propagate,
{
}

} // verus!
