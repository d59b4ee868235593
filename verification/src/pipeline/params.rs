//! Fixed-function parameters of graphics pipelines that hold no floating-point
//! values, and the dynamic states a pipeline's parameters ask for.

use vstd::prelude::*;

verus! {

/// `vk::CompareOp::NEVER`.
pub const COMPARE_OP_NEVER: i32 = 0;

/// `vk::CompareOp::LESS`.
pub const COMPARE_OP_LESS: i32 = 1;

/// `vk::DynamicState` raw values.
pub const DYNAMIC_STATE_VIEWPORT: i32 = 0;
pub const DYNAMIC_STATE_SCISSOR: i32 = 1;
pub const DYNAMIC_STATE_LINE_WIDTH: i32 = 2;
pub const DYNAMIC_STATE_DEPTH_BIAS: i32 = 3;
pub const DYNAMIC_STATE_BLEND_CONSTANTS: i32 = 4;
pub const DYNAMIC_STATE_DEPTH_BOUNDS: i32 = 5;
pub const DYNAMIC_STATE_STENCIL_COMPARE_MASK: i32 = 6;
pub const DYNAMIC_STATE_STENCIL_WRITE_MASK: i32 = 7;
pub const DYNAMIC_STATE_STENCIL_REFERENCE: i32 = 8;

/// The depth test of a pipeline. Compare operations are raw `vk::CompareOp` values.
#[derive(Clone, Copy, Debug, PartialEq, Eq, Structural)]
pub enum DepthTest {
    Disabled,
    Enabled(i32),
    EnabledReadonly(i32),
}

impl Default for DepthTest {
    fn default() -> (r: Self)
        ensures
            r == DepthTest::Enabled(COMPARE_OP_LESS),
    {
        DepthTest::Enabled(COMPARE_OP_LESS)
    }
}

impl DepthTest {
    /// `(depth_test_enable, depth_write_enable, depth_compare_op)`.
    pub open spec fn spec_into(self) -> (bool, bool, i32) {
        match self {
            DepthTest::Disabled => (false, false, COMPARE_OP_NEVER),
            DepthTest::Enabled(op) => (true, true, op),
            DepthTest::EnabledReadonly(op) => (true, false, op),
        }
    }

    /// The depth test, depth write and compare operation settings this test stands for.
    pub fn into(self) -> (r: (bool, bool, i32))
        ensures
            r == self.spec_into(),
            self is Disabled ==> !r.0 && !r.1,
            self matches DepthTest::Enabled(op) ==> r.0 && r.1 && r.2 == op,
            self matches DepthTest::EnabledReadonly(op) ==> r.0 && !r.1 && r.2 == op,
    {
        match self {
            DepthTest::Disabled => (false, false, COMPARE_OP_NEVER),
            DepthTest::Enabled(op) => (true, true, op),
            DepthTest::EnabledReadonly(op) => (true, false, op),
        }
    }
}

/// The stencil operations for one face, as `vk::StencilOpState` holds them.
#[derive(Clone, Copy, Debug, PartialEq, Eq, Structural)]
pub struct StencilOpState {
    pub fail_op: i32,
    pub pass_op: i32,
    pub depth_fail_op: i32,
    pub compare_op: i32,
    pub compare_mask: u32,
    pub write_mask: u32,
    pub reference: u32,
}

/// The all-zero stencil state, `vk::StencilOpState::default()`.
pub open spec fn zero_stencil_op_state() -> StencilOpState {
    StencilOpState {
        fail_op: 0,
        pass_op: 0,
        depth_fail_op: 0,
        compare_op: 0,
        compare_mask: 0,
        write_mask: 0,
        reference: 0,
    }
}

/// The stencil test of a pipeline, with values for the front (index 0) and back
/// (index 1) faces. A mask or reference left as `None` is set dynamically.
#[derive(Clone, Copy, Debug)]
pub enum StencilTest {
    Disabled,
    Enabled {
        fail_op: [i32; 2],
        pass_op: [i32; 2],
        depth_fail_op: [i32; 2],
        compare_op: [i32; 2],
        compare_mask: Option<[u32; 2]>,
        write_mask: Option<[u32; 2]>,
        reference: Option<[u32; 2]>,
    },
}

impl Default for StencilTest {
    fn default() -> (r: Self)
        ensures
            r == StencilTest::Disabled,
    {
        StencilTest::Disabled
    }
}

/// Element `i` of an optional pair, or 0 when there is none.
pub open spec fn pair_or_zero(value: Option<[u32; 2]>, i: int) -> u32 {
    match value {
        Some(pair) => pair[i],
        None => 0,
    }
}

/// The stencil state of one face (`i` is 0 for front, 1 for back).
pub open spec fn face_state(
    fail_op: [i32; 2],
    pass_op: [i32; 2],
    depth_fail_op: [i32; 2],
    compare_op: [i32; 2],
    compare_mask: Option<[u32; 2]>,
    write_mask: Option<[u32; 2]>,
    reference: Option<[u32; 2]>,
    i: int,
) -> StencilOpState {
    StencilOpState {
        fail_op: fail_op[i],
        pass_op: pass_op[i],
        depth_fail_op: depth_fail_op[i],
        compare_op: compare_op[i],
        compare_mask: pair_or_zero(compare_mask, i),
        write_mask: pair_or_zero(write_mask, i),
        reference: pair_or_zero(reference, i),
    }
}

impl StencilTest {
    /// `(stencil_test_enable, front, back, compare_mask_dynamic, write_mask_dynamic,
    /// reference_dynamic)`.
    pub open spec fn spec_into(self) -> (bool, StencilOpState, StencilOpState, bool, bool, bool) {
        match self {
            StencilTest::Disabled => (
                false,
                zero_stencil_op_state(),
                zero_stencil_op_state(),
                false,
                false,
                false,
            ),
            StencilTest::Enabled {
                fail_op,
                pass_op,
                depth_fail_op,
                compare_op,
                compare_mask,
                write_mask,
                reference,
            } => (
                true,
                face_state(fail_op, pass_op, depth_fail_op, compare_op, compare_mask, write_mask, reference, 0),
                face_state(fail_op, pass_op, depth_fail_op, compare_op, compare_mask, write_mask, reference, 1),
                compare_mask.is_none(),
                write_mask.is_none(),
                reference.is_none(),
            ),
        }
    }

    /// The stencil test enable, the front and back face states, and which of the
    /// compare mask, write mask and reference are dynamic.
    pub fn into(self) -> (r: (bool, StencilOpState, StencilOpState, bool, bool, bool))
        ensures
            r == self.spec_into(),
    {
        match self {
            StencilTest::Disabled => {
                let zero = StencilOpState {
                    fail_op: 0,
                    pass_op: 0,
                    depth_fail_op: 0,
                    compare_op: 0,
                    compare_mask: 0,
                    write_mask: 0,
                    reference: 0,
                };
                (false, zero, zero, false, false, false)
            },
            StencilTest::Enabled {
                fail_op,
                pass_op,
                depth_fail_op,
                compare_op,
                compare_mask,
                write_mask,
                reference,
            } => {
                let cmp_mask = match compare_mask {
                    Some(mask) => mask,
                    None => [0, 0],
                };
                let wrt_mask = match write_mask {
                    Some(mask) => mask,
                    None => [0, 0],
                };
                let rfc = match reference {
                    Some(value) => value,
                    None => [0, 0],
                };
                let front = StencilOpState {
                    fail_op: fail_op[0],
                    pass_op: pass_op[0],
                    depth_fail_op: depth_fail_op[0],
                    compare_op: compare_op[0],
                    compare_mask: cmp_mask[0],
                    write_mask: wrt_mask[0],
                    reference: rfc[0],
                };
                let back = StencilOpState {
                    fail_op: fail_op[1],
                    pass_op: pass_op[1],
                    depth_fail_op: depth_fail_op[1],
                    compare_op: compare_op[1],
                    compare_mask: cmp_mask[1],
                    write_mask: wrt_mask[1],
                    reference: rfc[1],
                };
                (true, front, back, compare_mask.is_none(), write_mask.is_none(), reference.is_none())
            },
        }
    }
}

/// The blend logic operation of a pipeline, as a raw `vk::LogicOp`.
#[derive(Clone, Copy, Debug, PartialEq, Eq, Structural)]
pub enum BlendLogicOp {
    Disabled,
    Enabled(i32),
}

impl Default for BlendLogicOp {
    fn default() -> (r: Self)
        ensures
            r == BlendLogicOp::Disabled,
    {
        BlendLogicOp::Disabled
    }
}

impl BlendLogicOp {
    /// `(logic_op_enable, logic_op)`; a disabled operation is `vk::LogicOp::default()`.
    pub open spec fn spec_into(self) -> (bool, i32) {
        match self {
            BlendLogicOp::Disabled => (false, 0),
            BlendLogicOp::Enabled(op) => (true, op),
        }
    }

    /// Whether logic operations are enabled, and which one.
    pub fn into(self) -> (r: (bool, i32))
        ensures
            r == self.spec_into(),
            self is Disabled ==> !r.0,
            self matches BlendLogicOp::Enabled(op) ==> r.0 && r.1 == op,
    {
        match self {
            BlendLogicOp::Disabled => (false, 0),
            BlendLogicOp::Enabled(op) => (true, op),
        }
    }
}

/// Which parts of a graphics pipeline's state are set dynamically, as its
/// parameters ask for it.
#[derive(Clone, Copy, Debug, PartialEq, Eq, Structural)]
pub struct DynamicStateRequest {
    /// The viewports are dynamic.
    pub viewport: bool,
    /// The scissors are dynamic.
    pub scissor: bool,
    /// The line width is dynamic (given as NaN).
    pub line_width: bool,
    /// Depth bias is enabled and one of its factors is dynamic (given as NaN).
    pub depth_bias: bool,
    /// The depth bounds test is enabled and a bound is dynamic (given as NaN).
    pub depth_bounds: bool,
    /// The stencil test is enabled.
    pub stencil_test: bool,
    /// The stencil compare mask is dynamic.
    pub stencil_compare_mask: bool,
    /// The stencil write mask is dynamic.
    pub stencil_write_mask: bool,
    /// The stencil reference is dynamic.
    pub stencil_reference: bool,
    /// The blend constants are dynamic.
    pub blend_constants: bool,
}

/// `value` when `condition` holds, nothing otherwise.
pub open spec fn if_set(condition: bool, value: i32) -> Seq<i32> {
    if condition {
        seq![value]
    } else {
        seq![]
    }
}

/// Appends `value` when `condition` holds.
fn push_if(states: &mut Vec<i32>, condition: bool, value: i32)
    ensures
        final(states)@ == old(states)@ + if_set(condition, value),
{
    if condition {
        states.push(value);
    }
    assert(states@ =~= old(states)@ + if_set(condition, value));
}

impl DynamicStateRequest {
    /// The dynamic states of the pipeline, in the order its create info lists them:
    /// viewport, scissor, line width, depth bias, depth bounds, the stencil states
    /// (only with the stencil test enabled), blend constants.
    pub open spec fn spec_dynamic_states(self) -> Seq<i32> {
        if_set(self.viewport, DYNAMIC_STATE_VIEWPORT) + if_set(self.scissor, DYNAMIC_STATE_SCISSOR)
            + if_set(self.line_width, DYNAMIC_STATE_LINE_WIDTH) + if_set(
            self.depth_bias,
            DYNAMIC_STATE_DEPTH_BIAS,
        ) + if_set(self.depth_bounds, DYNAMIC_STATE_DEPTH_BOUNDS) + if_set(
            self.stencil_test && self.stencil_compare_mask,
            DYNAMIC_STATE_STENCIL_COMPARE_MASK,
        ) + if_set(self.stencil_test && self.stencil_write_mask, DYNAMIC_STATE_STENCIL_WRITE_MASK)
            + if_set(self.stencil_test && self.stencil_reference, DYNAMIC_STATE_STENCIL_REFERENCE)
            + if_set(self.blend_constants, DYNAMIC_STATE_BLEND_CONSTANTS)
    }

    /// Lists the `vk::DynamicState` values the pipeline is created with.
    #[verifier::rlimit(30)]
    pub fn dynamic_states(&self) -> (r: Vec<i32>)
        ensures
            r@ == self.spec_dynamic_states(),
            r@.len() <= 9,
    {
        let mut states: Vec<i32> = Vec::new();
        push_if(&mut states, self.viewport, DYNAMIC_STATE_VIEWPORT);
        push_if(&mut states, self.scissor, DYNAMIC_STATE_SCISSOR);
        push_if(&mut states, self.line_width, DYNAMIC_STATE_LINE_WIDTH);
        push_if(&mut states, self.depth_bias, DYNAMIC_STATE_DEPTH_BIAS);
        push_if(&mut states, self.depth_bounds, DYNAMIC_STATE_DEPTH_BOUNDS);
        push_if(
            &mut states,
            self.stencil_test && self.stencil_compare_mask,
            DYNAMIC_STATE_STENCIL_COMPARE_MASK,
        );
        push_if(&mut states, self.stencil_test && self.stencil_write_mask, DYNAMIC_STATE_STENCIL_WRITE_MASK);
        push_if(&mut states, self.stencil_test && self.stencil_reference, DYNAMIC_STATE_STENCIL_REFERENCE);
        push_if(&mut states, self.blend_constants, DYNAMIC_STATE_BLEND_CONSTANTS);
        assert(states@ =~= self.spec_dynamic_states());
        states
    }
}

/// A depth test that is on always tests, writes exactly when it is not read-only,
/// and compares with the operation it was given; a disabled one neither tests nor
/// writes.
pub proof fn lemma_depth_test_settings(op: i32)
    ensures
        DepthTest::Enabled(op).spec_into() == (true, true, op),
        DepthTest::EnabledReadonly(op).spec_into() == (true, false, op),
        !DepthTest::Disabled.spec_into().0 && !DepthTest::Disabled.spec_into().1,
{
}

/// Logic operations are on exactly when enabled, with the operation given.
pub proof fn lemma_blend_logic_op_settings(op: i32)
    ensures
        BlendLogicOp::Enabled(op).spec_into() == (true, op),
        !BlendLogicOp::Disabled.spec_into().0,
{
}

/// An enabled stencil test turns the test on and gives each face (front from index
/// 0, back from index 1) the operations it was given; a mask or reference given is
/// used for that face, and one left out is marked dynamic. A disabled test is off,
/// with nothing dynamic.
pub proof fn lemma_stencil_test_settings(test: StencilTest)
    ensures
        test is Disabled ==> !test.spec_into().0 && !test.spec_into().3 && !test.spec_into().4
            && !test.spec_into().5,
        test matches StencilTest::Enabled {
            fail_op,
            pass_op,
            depth_fail_op,
            compare_op,
            compare_mask,
            write_mask,
            reference,
        } ==> {
            let (enable, front, back, cm_dyn, wm_dyn, ref_dyn) = test.spec_into();
            &&& enable
            &&& front.fail_op == fail_op[0] && back.fail_op == fail_op[1]
            &&& front.pass_op == pass_op[0] && back.pass_op == pass_op[1]
            &&& front.depth_fail_op == depth_fail_op[0] && back.depth_fail_op == depth_fail_op[1]
            &&& front.compare_op == compare_op[0] && back.compare_op == compare_op[1]
            &&& cm_dyn == compare_mask is None
            &&& wm_dyn == write_mask is None
            &&& ref_dyn == reference is None
            &&& compare_mask matches Some(m) ==> front.compare_mask == m[0] && back.compare_mask == m[1]
            &&& write_mask matches Some(m) ==> front.write_mask == m[0] && back.write_mask == m[1]
            &&& reference matches Some(m) ==> front.reference == m[0] && back.reference == m[1]
        },
{
}

proof fn lemma_if_set_contains(condition: bool, value: i32)
    ensures
        forall|x: i32| #[trigger] if_set(condition, value).contains(x) <==> (condition && x == value),
{
    if condition {
        assert(if_set(condition, value)[0] == value);
    }
}

proof fn lemma_concat_contains(a: Seq<i32>, b: Seq<i32>)
    ensures
        forall|x: i32| #[trigger] (a + b).contains(x) <==> (a.contains(x) || b.contains(x)),
{
    assert forall|x: i32| #[trigger] (a + b).contains(x) <==> (a.contains(x) || b.contains(x)) by {
        if a.contains(x) {
            let i = choose|i: int| 0 <= i < a.len() && a[i] == x;
            assert((a + b)[i] == x);
        }
        if b.contains(x) {
            let i = choose|i: int| 0 <= i < b.len() && b[i] == x;
            assert((a + b)[a.len() + i] == x);
        }
        if (a + b).contains(x) {
            let i = choose|i: int| 0 <= i < (a + b).len() && (a + b)[i] == x;
            if i < a.len() {
                assert(a[i] == x);
            } else {
                assert(b[i - a.len()] == x);
            }
        }
    }
}

/// Each dynamic state (by its raw `vk::DynamicState` value) is listed exactly when
/// its own part of the state is requested: viewport (0), scissor (1), line width
/// (2), depth bias (3), blend constants (4), depth bounds (5), and, with the stencil
/// test on, the stencil compare mask (6), write mask (7) and reference (8). Nothing
/// else is ever listed.
pub proof fn lemma_dynamic_state_membership(request: DynamicStateRequest)
    ensures
        request.spec_dynamic_states().contains(0) <==> request.viewport,
        request.spec_dynamic_states().contains(1) <==> request.scissor,
        request.spec_dynamic_states().contains(2) <==> request.line_width,
        request.spec_dynamic_states().contains(3) <==> request.depth_bias,
        request.spec_dynamic_states().contains(4) <==> request.blend_constants,
        request.spec_dynamic_states().contains(5) <==> request.depth_bounds,
        request.spec_dynamic_states().contains(6) <==> (request.stencil_test && request.stencil_compare_mask),
        request.spec_dynamic_states().contains(7) <==> (request.stencil_test && request.stencil_write_mask),
        request.spec_dynamic_states().contains(8) <==> (request.stencil_test && request.stencil_reference),
        forall|x: i32| #[trigger] request.spec_dynamic_states().contains(x) ==> 0 <= x <= 8,
{
    let s1 = if_set(request.viewport, DYNAMIC_STATE_VIEWPORT);
    let s2 = if_set(request.scissor, DYNAMIC_STATE_SCISSOR);
    let s3 = if_set(request.line_width, DYNAMIC_STATE_LINE_WIDTH);
    let s4 = if_set(request.depth_bias, DYNAMIC_STATE_DEPTH_BIAS);
    let s5 = if_set(request.depth_bounds, DYNAMIC_STATE_DEPTH_BOUNDS);
    let s6 = if_set(request.stencil_test && request.stencil_compare_mask, DYNAMIC_STATE_STENCIL_COMPARE_MASK);
    let s7 = if_set(request.stencil_test && request.stencil_write_mask, DYNAMIC_STATE_STENCIL_WRITE_MASK);
    let s8 = if_set(request.stencil_test && request.stencil_reference, DYNAMIC_STATE_STENCIL_REFERENCE);
    let s9 = if_set(request.blend_constants, DYNAMIC_STATE_BLEND_CONSTANTS);
    lemma_if_set_contains(request.viewport, DYNAMIC_STATE_VIEWPORT);
    lemma_if_set_contains(request.scissor, DYNAMIC_STATE_SCISSOR);
    lemma_if_set_contains(request.line_width, DYNAMIC_STATE_LINE_WIDTH);
    lemma_if_set_contains(request.depth_bias, DYNAMIC_STATE_DEPTH_BIAS);
    lemma_if_set_contains(request.depth_bounds, DYNAMIC_STATE_DEPTH_BOUNDS);
    lemma_if_set_contains(request.stencil_test && request.stencil_compare_mask, DYNAMIC_STATE_STENCIL_COMPARE_MASK);
    lemma_if_set_contains(request.stencil_test && request.stencil_write_mask, DYNAMIC_STATE_STENCIL_WRITE_MASK);
    lemma_if_set_contains(request.stencil_test && request.stencil_reference, DYNAMIC_STATE_STENCIL_REFERENCE);
    lemma_if_set_contains(request.blend_constants, DYNAMIC_STATE_BLEND_CONSTANTS);
    lemma_concat_contains(s1, s2);
    lemma_concat_contains(s1 + s2, s3);
    lemma_concat_contains(s1 + s2 + s3, s4);
    lemma_concat_contains(s1 + s2 + s3 + s4, s5);
    lemma_concat_contains(s1 + s2 + s3 + s4 + s5, s6);
    lemma_concat_contains(s1 + s2 + s3 + s4 + s5 + s6, s7);
    lemma_concat_contains(s1 + s2 + s3 + s4 + s5 + s6 + s7, s8);
    lemma_concat_contains(s1 + s2 + s3 + s4 + s5 + s6 + s7 + s8, s9);
    assert(request.spec_dynamic_states() == s1 + s2 + s3 + s4 + s5 + s6 + s7 + s8 + s9);
}

} // verus!
