//! Decisions of the render hooks that find the game's isometric view
//! transform and draw the minimap once per frame, right when the game loads
//! that transform as its view matrix.
//!
//! The game is hooked at four functions: the local player's model render,
//! `Gfx_LoadMatrix`, `Matrix_Mul` and `Matrix_RotateX`. Each hook hands its
//! event to an `IsoHookState`, which updates its state and says what the
//! hook must do next. Matrices are identified by their address.
use vstd::prelude::*;

verus! {

/// What the `Matrix_Mul` hook does after an event.
#[derive(PartialEq, Eq, Structural, Clone, Copy, Debug)]
pub enum MulAction {
    /// Lift the `Matrix_Mul` hook for good and compute the product directly.
    UnhookThenMultiply,
    /// Run the hooked-over original, then compute the product again with
    /// the hook lifted for that one call.
    ForwardThenMultiply,
}

/// What the `Matrix_RotateX` hook does after an event.
#[derive(PartialEq, Eq, Structural, Clone, Copy, Debug)]
pub enum RotateAction {
    /// Lift the `Matrix_RotateX` hook for good and compute the rotation.
    UnhookThenRotate,
    /// Compute the rotation with the hook lifted for that one call.
    RotateUnhooked,
}

/// State shared by the render hooks.
#[derive(PartialEq, Eq, Structural, Clone, Copy, Debug)]
pub struct IsoHookState {
    /// The local player's model was rendered and the minimap has not been
    /// drawn since.
    pub first_in_render: bool,
    /// Address of the matrix that receives the isometric view transform,
    /// once it has been found.
    pub iso_transform: Option<usize>,
    /// The last rotation seen was the isometric tilt, so the next
    /// multiplication builds the isometric transform.
    pub about_to_call_mul: bool,
    /// The `Matrix_Mul` hook is in place.
    pub mul_hooked: bool,
    /// The `Matrix_RotateX` hook is in place.
    pub rotate_hooked: bool,
}

/// State after the local player's model was rendered.
pub open spec fn render_model_step(s: IsoHookState) -> IsoHookState {
    IsoHookState { first_in_render: true, ..s }
}

/// Whether loading matrix `matrix` (as the view matrix when `is_view`)
/// draws the minimap: it is the isometric transform, loaded as the view
/// matrix, for the first time since the player's model was rendered.
pub open spec fn load_matrix_draws(s: IsoHookState, is_view: bool, matrix: usize) -> bool {
    is_view && s.iso_transform == Some(matrix) && s.first_in_render
}

/// State after matrix `matrix` was loaded.
pub open spec fn load_matrix_step(s: IsoHookState, is_view: bool, matrix: usize) -> IsoHookState {
    if load_matrix_draws(s, is_view, matrix) {
        IsoHookState { first_in_render: false, ..s }
    } else {
        s
    }
}

/// State after a multiplication into the matrix at `result`: the product
/// that follows the isometric tilt is the isometric transform.
pub open spec fn matrix_mul_step(s: IsoHookState, result: usize) -> IsoHookState {
    if s.about_to_call_mul {
        IsoHookState {
            iso_transform: Some(result),
            about_to_call_mul: false,
            mul_hooked: false,
            ..s
        }
    } else {
        s
    }
}

/// What the multiplication hook does in state `s`.
pub open spec fn matrix_mul_action(s: IsoHookState) -> MulAction {
    if s.about_to_call_mul {
        MulAction::UnhookThenMultiply
    } else {
        MulAction::ForwardThenMultiply
    }
}

/// State after a rotation about the x axis; `is_iso_tilt` says whether its
/// angle is the isometric tilt of -30 degrees.
pub open spec fn matrix_rotate_x_step(s: IsoHookState, is_iso_tilt: bool) -> IsoHookState {
    if is_iso_tilt {
        IsoHookState { about_to_call_mul: true, rotate_hooked: false, ..s }
    } else {
        s
    }
}

/// What the rotation hook does.
pub open spec fn matrix_rotate_x_action(is_iso_tilt: bool) -> RotateAction {
    if is_iso_tilt {
        RotateAction::UnhookThenRotate
    } else {
        RotateAction::RotateUnhooked
    }
}

impl IsoHookState {
    /// The state when the hooks are installed: nothing found yet, all hooks
    /// in place.
    pub fn new() -> (s: Self)
        ensures
            s == (IsoHookState {
                first_in_render: false,
                iso_transform: None,
                about_to_call_mul: false,
                mul_hooked: true,
                rotate_hooked: true,
            }),
    {
        IsoHookState {
            first_in_render: false,
            iso_transform: None,
            about_to_call_mul: false,
            mul_hooked: true,
            rotate_hooked: true,
        }
    }

    /// The local player's model was rendered (after the original ran).
    pub fn render_model(&mut self)
        ensures
            *final(self) == render_model_step(*old(self)),
    {
        self.first_in_render = true;
    }

    /// The game loads matrix `matrix`, as its view matrix when `is_view`.
    /// Returns whether the minimap must be updated and drawn now, before
    /// the original `Gfx_LoadMatrix` runs; the original always runs.
    pub fn load_matrix(&mut self, is_view: bool, matrix: usize) -> (draw: bool)
        ensures
            draw == load_matrix_draws(*old(self), is_view, matrix),
            *final(self) == load_matrix_step(*old(self), is_view, matrix),
    {
        if is_view {
            match self.iso_transform {
                Some(iso_transform) => {
                    if matrix == iso_transform && self.first_in_render {
                        self.first_in_render = false;
                        return true;
                    }
                },
                None => {},
            }
        }
        false
    }

    /// The game multiplies two matrices into the matrix at `result`.
    pub fn matrix_mul(&mut self, result: usize) -> (action: MulAction)
        ensures
            action == matrix_mul_action(*old(self)),
            *final(self) == matrix_mul_step(*old(self), result),
    {
        if self.about_to_call_mul {
            self.iso_transform = Some(result);
            self.about_to_call_mul = false;
            self.mul_hooked = false;
            MulAction::UnhookThenMultiply
        } else {
            MulAction::ForwardThenMultiply
        }
    }

    /// The game rotates a matrix about the x axis; `is_iso_tilt` says
    /// whether the angle is the isometric tilt.
    pub fn matrix_rotate_x(&mut self, is_iso_tilt: bool) -> (action: RotateAction)
        ensures
            action == matrix_rotate_x_action(is_iso_tilt),
            *final(self) == matrix_rotate_x_step(*old(self), is_iso_tilt),
    {
        if is_iso_tilt {
            self.about_to_call_mul = true;
            self.rotate_hooked = false;
            RotateAction::UnhookThenRotate
        } else {
            RotateAction::RotateUnhooked
        }
    }
}

/// The minimap is drawn at most once per rendering of the player's model:
/// after a load that draws, no further load draws until the model is
/// rendered again.
pub proof fn lemma_draw_at_most_once_per_render(
    s: IsoHookState,
    view1: bool,
    matrix1: usize,
    view2: bool,
    matrix2: usize,
)
    requires
        load_matrix_draws(s, view1, matrix1),
    ensures
        !load_matrix_draws(load_matrix_step(s, view1, matrix1), view2, matrix2),
{
}

/// A load draws only the isometric transform, loaded as the view matrix.
pub proof fn lemma_draw_only_iso_view(s: IsoHookState, is_view: bool, matrix: usize)
    requires
        load_matrix_draws(s, is_view, matrix),
    ensures
        is_view,
        s.iso_transform == Some(matrix),
{
}

/// Once the isometric transform is known, rendering the player's model and
/// then loading that transform as the view matrix draws the minimap.
pub proof fn lemma_render_then_iso_load_draws(s: IsoHookState, iso: usize)
    requires
        s.iso_transform == Some(iso),
    ensures
        load_matrix_draws(render_model_step(s), true, iso),
{
}

/// The multiplication that follows the isometric tilt records its result
/// as the isometric transform, and both hooks are lifted afterwards.
pub proof fn lemma_tilt_then_mul_finds_iso(s: IsoHookState, result: usize)
    ensures
        matrix_mul_step(matrix_rotate_x_step(s, true), result).iso_transform == Some(result),
        !matrix_mul_step(matrix_rotate_x_step(s, true), result).about_to_call_mul,
        !matrix_mul_step(matrix_rotate_x_step(s, true), result).mul_hooked,
        !matrix_mul_step(matrix_rotate_x_step(s, true), result).rotate_hooked,
        matrix_mul_action(matrix_rotate_x_step(s, true)) == MulAction::UnhookThenMultiply,
{
}

/// Without a preceding tilt, a multiplication leaves the state as it is.
pub proof fn lemma_mul_without_tilt_keeps_state(s: IsoHookState, result: usize)
    requires
        !s.about_to_call_mul,
    ensures
        matrix_mul_step(s, result) == s,
        matrix_mul_action(s) == MulAction::ForwardThenMultiply,
{
}

/// Loading a matrix never changes what was found about the isometric
/// transform, nor the hooks.
pub proof fn lemma_load_keeps_iso(s: IsoHookState, is_view: bool, matrix: usize)
    ensures
        load_matrix_step(s, is_view, matrix).iso_transform == s.iso_transform,
        load_matrix_step(s, is_view, matrix).about_to_call_mul == s.about_to_call_mul,
        load_matrix_step(s, is_view, matrix).mul_hooked == s.mul_hooked,
        load_matrix_step(s, is_view, matrix).rotate_hooked == s.rotate_hooked,
{
}

/// The state after each load of `loads` in turn, a load being a pair of
/// "loaded as the view matrix" and the matrix's address.
pub open spec fn apply_loads(s: IsoHookState, loads: Seq<(bool, usize)>) -> IsoHookState
    decreases loads.len(),
{
    if loads.len() == 0 {
        s
    } else {
        apply_loads(load_matrix_step(s, loads[0].0, loads[0].1), loads.drop_first())
    }
}

/// A load that is not the isometric transform loaded as the view matrix
/// right after a model render draws nothing and changes nothing; a load
/// that is, draws and clears only the render flag.
pub proof fn lemma_load_changes_only_on_draw(s: IsoHookState, is_view: bool, matrix: usize)
    ensures
        !(is_view && s.iso_transform == Some(matrix) && s.first_in_render) ==> (!load_matrix_draws(
            s,
            is_view,
            matrix,
        ) && load_matrix_step(s, is_view, matrix) == s),
        (is_view && s.iso_transform == Some(matrix) && s.first_in_render) ==> (load_matrix_draws(
            s,
            is_view,
            matrix,
        ) && load_matrix_step(s, is_view, matrix) == IsoHookState { first_in_render: false, ..s }),
{
}

/// Loads other than the isometric view leave a state as it is.
proof fn lemma_other_loads_keep_state(t: IsoHookState, iso: usize, loads: Seq<(bool, usize)>)
    requires
        t.iso_transform == Some(iso),
        forall|i: int| 0 <= i < loads.len() ==> !(#[trigger] loads[i].0 && loads[i].1 == iso),
    ensures
        apply_loads(t, loads) == t,
    decreases loads.len(),
{
    if loads.len() > 0 {
        assert(!(loads[0].0 && loads[0].1 == iso));
        assert forall|i: int| 0 <= i < loads.drop_first().len() implies !(#[trigger] loads.drop_first()[i].0
            && loads.drop_first()[i].1 == iso) by {
            assert(loads.drop_first()[i] == loads[i + 1]);
        }
        lemma_other_loads_keep_state(t, iso, loads.drop_first());
    }
}

/// Once the isometric transform is known, after the player's model is
/// rendered, any loads of other matrices (or of it, but not as the view
/// matrix) leave the minimap pending, and the next view load of the
/// isometric transform draws it.
pub proof fn lemma_render_then_other_loads_then_iso_draws(
    s: IsoHookState,
    iso: usize,
    loads: Seq<(bool, usize)>,
)
    requires
        s.iso_transform == Some(iso),
        forall|i: int| 0 <= i < loads.len() ==> !(#[trigger] loads[i].0 && loads[i].1 == iso),
    ensures
        apply_loads(render_model_step(s), loads).first_in_render,
        load_matrix_draws(apply_loads(render_model_step(s), loads), true, iso),
{
    lemma_other_loads_keep_state(render_model_step(s), iso, loads);
}

/// A rotation other than the isometric tilt changes nothing and rotates
/// with the hook lifted for that call; the tilt only arms the next
/// multiplication and lifts the rotation hook.
pub proof fn lemma_rotation_arms_only_on_tilt(s: IsoHookState)
    ensures
        matrix_rotate_x_step(s, false) == s,
        matrix_rotate_x_action(false) == RotateAction::RotateUnhooked,
        matrix_rotate_x_step(s, true) == (IsoHookState {
            about_to_call_mul: true,
            rotate_hooked: false,
            ..s
        }),
        matrix_rotate_x_action(true) == RotateAction::UnhookThenRotate,
{
}

/// A rotation other than the tilt followed by a multiplication, from a
/// state not armed by a tilt, leaves the state as it is: nothing is taken
/// for the isometric transform and both hooks stay.
pub proof fn lemma_other_rotation_then_mul_finds_nothing(s: IsoHookState, result: usize)
    requires
        !s.about_to_call_mul,
    ensures
        matrix_mul_step(matrix_rotate_x_step(s, false), result) == s,
        matrix_mul_action(matrix_rotate_x_step(s, false)) == MulAction::ForwardThenMultiply,
{
}

} // verus!
