use vstd::prelude::*;
use crate::model::{
    gripper_closed, unset_object, CameraObject, Command, Detection, HandObject, Properties, Slot,
    Telemetry, Vec2, Vec4, GRIPPER_OUTPUT, UNSET,
};
use crate::protocol::{AeraProtocol, CommandError, TIMESTAMP_STEP};
use crate::robot::Directive;

verus! {

/// Pixel column of the point directly beneath the gripper.
pub const CAM_GRAB_X: i64 = 148;

/// Pixel row of the point directly beneath the gripper.
pub const CAM_GRAB_Y: i64 = 171;

/// Height at which an object is grabbed, in millimetres.
pub const GRAB_Z: i64 = -140;

/// Approach angle for a grab, in degrees.
pub const GRAB_W: i64 = 45;

/// Millimetres per pixel along the image columns: 40 / 47, one over 1.175.
pub const MM_PER_PX_NUM: i64 = 40;

pub const MM_PER_PX_DEN: i64 = 47;

/// A column offset in pixels scaled to millimetres, truncated toward zero.
pub open spec fn px_to_mm(d: int) -> int {
    if d >= 0 {
        (d * MM_PER_PX_NUM) / MM_PER_PX_DEN as int
    } else {
        -(((-d) * MM_PER_PX_NUM) / MM_PER_PX_DEN as int)
    }
}

/// The world pose from which an object seen at `pixel` can be grabbed, given
/// the hand pose: image rows map one to one onto x, image columns onto y.
pub open spec fn predicted_grab_pos(hand: Vec4, pixel: Vec2) -> Vec4 {
    Vec4 {
        x: (hand.x + (CAM_GRAB_Y - pixel.y)) as i64,
        y: (hand.y + px_to_mm(CAM_GRAB_X - pixel.x)) as i64,
        z: GRAB_Z,
        w: GRAB_W,
    }
}

pub fn calculate_predicted_grab_pos(hand_pos: &Vec4, co_pos: &Vec2) -> (r: Vec4)
    requires
        hand_pos.in_range(),
        co_pos.in_range(),
    ensures
        r == predicted_grab_pos(*hand_pos, *co_pos),
        r.x == hand_pos.x + (CAM_GRAB_Y - co_pos.y),
        r.y == hand_pos.y + px_to_mm(CAM_GRAB_X - co_pos.x),
{
    let dx: i64 = CAM_GRAB_X - co_pos.x;
    let dy: i64 = CAM_GRAB_Y - co_pos.y;
    let off_y: i64 = if dx >= 0 {
        (dx * MM_PER_PX_NUM) / MM_PER_PX_DEN
    } else {
        -(((-dx) * MM_PER_PX_NUM) / MM_PER_PX_DEN)
    };
    proof {
        if dx >= 0 {
            assert((dx * 40) / 47 <= dx * 40) by (nonlinear_arith)
                requires dx >= 0;
            assert((dx * 40) / 47 >= 0) by (nonlinear_arith)
                requires dx >= 0;
        } else {
            assert(((-dx) * 40) / 47 <= (-dx) * 40) by (nonlinear_arith)
                requires dx < 0;
            assert(((-dx) * 40) / 47 >= 0) by (nonlinear_arith)
                requires dx < 0;
        }
    }
    Vec4 { x: hand_pos.x + dy, y: hand_pos.y + off_y, z: GRAB_Z, w: GRAB_W }
}

/// The slots that perception may fill this tick, in assignment order: every
/// slot but the held one.
pub open spec fn free_slots(holding: Option<Slot>) -> Seq<Slot> {
    match holding {
        None => seq![Slot::Co1, Slot::Co2, Slot::Co3],
        Some(Slot::Co1) => seq![Slot::Co2, Slot::Co3],
        Some(Slot::Co2) => seq![Slot::Co1, Slot::Co3],
        Some(Slot::Co3) => seq![Slot::Co1, Slot::Co2],
    }
}

/// Position of `s` among the free slots, or -1 when it is held.
pub open spec fn rank(holding: Option<Slot>, s: Slot) -> int {
    if holding == Some(s) {
        -1
    } else {
        match (holding, s) {
            (None, Slot::Co1) => 0,
            (None, Slot::Co2) => 1,
            (None, Slot::Co3) => 2,
            (Some(Slot::Co1), Slot::Co2) => 0,
            (Some(Slot::Co1), _) => 1,
            (_, Slot::Co1) => 0,
            _ => 1,
        }
    }
}

/// An unset slot that perception has just seen.
pub open spec fn observed(d: Detection) -> CameraObject {
    CameraObject { position: d.position, class: d.class, ..unset_object() }
}

/// A slot after perception: a held slot is left alone, the k-th free slot
/// takes the k-th detection, and a free slot without one is unset.
pub open spec fn perceived(old: CameraObject, holding: Option<Slot>, s: Slot, dets: Seq<Detection>) -> CameraObject {
    if holding == Some(s) {
        old
    } else if rank(holding, s) < dets.len() {
        observed(dets[rank(holding, s)])
    } else {
        unset_object()
    }
}

/// Whether a tick infers that the gripper holds an object: the gripper is
/// closed and the camera sees nothing, as the held object hides from it.
pub open spec fn infers_holding(t: Telemetry, dets: Seq<Detection>) -> bool {
    gripper_closed(t.digital_outputs) && dets.len() == 0
}

pub open spec fn holding_after(old: Option<Slot>, t: Telemetry, dets: Seq<Detection>) -> Option<Slot> {
    if old is None && infers_holding(t, dets) {
        Some(Slot::Co1)
    } else {
        old
    }
}

/// A slot at the end of a tick's update: the held slot follows the hand, a
/// classified slot gets its predicted grab position.
pub open spec fn updated_slot(p: CameraObject, holding: Option<Slot>, s: Slot, hand: Vec4) -> CameraObject {
    if holding == Some(s) {
        CameraObject { predicted_grab_pos: hand, ..p }
    } else if p.class != UNSET {
        CameraObject { predicted_grab_pos: predicted_grab_pos(hand, p.position), ..p }
    } else {
        p
    }
}

pub open spec fn tick_slot(old: Properties, s: Slot, dets: Seq<Detection>, t: Telemetry) -> CameraObject {
    updated_slot(
        perceived(old.slot(s), old.h.holding, s, dets),
        holding_after(old.h.holding, t, dets),
        s,
        t.tool_pose,
    )
}

pub open spec fn detections_ok(dets: Seq<Detection>) -> bool {
    forall|i: int| 0 <= i < dets.len() ==> (#[trigger] dets[i]).position.in_range()
}

fn perceive_slot(obj: &mut CameraObject, holding: Option<Slot>, s: Slot, dets: &[Detection])
    requires
        detections_ok(dets@),
    ensures
        *final(obj) == perceived(*old(obj), holding, s, dets@),
{
    if holding == Some(s) {
        return ;
    }
    let k: usize = match (holding, s) {
        (None, Slot::Co1) => 0,
        (None, Slot::Co2) => 1,
        (None, Slot::Co3) => 2,
        (Some(Slot::Co1), Slot::Co2) => 0,
        (Some(Slot::Co1), _) => 1,
        (_, Slot::Co1) => 0,
        _ => 1,
    };
    obj.set_default();
    if k < dets.len() {
        obj.class = dets[k].class;
        obj.position = dets[k].position;
    }
}

fn update_slot(obj: &mut CameraObject, holding: Option<Slot>, s: Slot, hand: &Vec4)
    requires
        old(obj).position.in_range(),
        hand.in_range(),
    ensures
        *final(obj) == updated_slot(*old(obj), holding, s, *hand),
{
    if holding == Some(s) {
        obj.predicted_grab_pos = *hand;
    } else if obj.class != UNSET {
        obj.predicted_grab_pos = calculate_predicted_grab_pos(hand, &obj.position);
    }
}

/// One tick's update of the snapshot from perception and telemetry.
pub fn update_snapshot(props: &mut Properties, detections: &[Detection], telemetry: &Telemetry)
    requires
        old(props).wf(),
        telemetry.wf(),
        detections_ok(detections@),
    ensures
        final(props).wf(),
        final(props).h.position == telemetry.tool_pose,
        final(props).h.holding == holding_after(old(props).h.holding, *telemetry, detections@),
        final(props).co1 == tick_slot(*old(props), Slot::Co1, detections@, *telemetry),
        final(props).co2 == tick_slot(*old(props), Slot::Co2, detections@, *telemetry),
        final(props).co3 == tick_slot(*old(props), Slot::Co3, detections@, *telemetry),
{
    let held: Option<Slot> = props.h.holding;
    perceive_slot(&mut props.co1, held, Slot::Co1, detections);
    perceive_slot(&mut props.co2, held, Slot::Co2, detections);
    perceive_slot(&mut props.co3, held, Slot::Co3, detections);
    props.h.position = telemetry.tool_pose;
    if props.h.holding.is_none() && telemetry.gripper_closed() && detections.len() == 0 {
        props.h.holding = Some(Slot::Co1);
    }
    let now_held: Option<Slot> = props.h.holding;
    let hand: Vec4 = props.h.position;
    update_slot(&mut props.co1, now_held, Slot::Co1, &hand);
    update_slot(&mut props.co2, now_held, Slot::Co2, &hand);
    update_slot(&mut props.co3, now_held, Slot::Co3, &hand);
}


/// How far the gripper descends to grab, in millimetres.
pub const GRAB_DESCENT: i64 = 137;

/// Pause after a grab step, in milliseconds, for the arm to settle.
pub const SETTLE_MS: u64 = 1000;

/// One step of a timed sequence: a directive, then a pause.
#[derive(Clone, Copy, Debug, PartialEq, Eq, Structural)]
pub struct Step {
    pub directive: Directive,
    pub settle_ms: u64,
}

/// Why a received command led to no directive.
#[derive(Clone, Copy, Debug, PartialEq, Eq, Structural)]
pub enum DispatchError {
    /// A relative move whose target does not fit in the coordinate range.
    MoveOutOfRange,
}

pub open spec fn fits_i64(v: int) -> bool {
    i64::MIN <= v <= i64::MAX
}

/// Grab: descend, close the gripper, return to the pose where it started.
pub open spec fn grab_steps(hand: Vec4) -> Seq<Step> {
    seq![
        Step {
            directive: Directive::MovJ { x: hand.x, y: hand.y, z: (hand.z - GRAB_DESCENT) as i64, r: hand.w },
            settle_ms: SETTLE_MS,
        },
        Step { directive: Directive::SetDo { index: GRIPPER_OUTPUT, status: true }, settle_ms: SETTLE_MS },
        Step { directive: Directive::MovJ { x: hand.x, y: hand.y, z: hand.z, r: hand.w }, settle_ms: 0 },
    ]
}

/// The directives that carry out command `c` from hand pose `hand`; `None`
/// when a relative move leaves the range of `i64`.
pub open spec fn command_steps(hand: Vec4, c: Command) -> Option<Seq<Step>> {
    match c {
        Command::EnableRobot => Some(seq![Step { directive: Directive::EnableRobot, settle_ms: 0 }]),
        Command::MovJ(x, y, z, r) => Some(seq![Step { directive: Directive::MovJ { x, y, z, r }, settle_ms: 0 }]),
        Command::Move(dx, dy, dz, dr) => {
            if fits_i64(hand.x + dx) && fits_i64(hand.y + dy) && fits_i64(hand.z + dz) && fits_i64(hand.w + dr) {
                Some(seq![Step {
                    directive: Directive::MovJ {
                        x: (hand.x + dx) as i64,
                        y: (hand.y + dy) as i64,
                        z: (hand.z + dz) as i64,
                        r: (hand.w + dr) as i64,
                    },
                    settle_ms: 0,
                }])
            } else {
                None
            }
        },
        Command::Grab => Some(grab_steps(hand)),
        Command::Release => Some(seq![Step { directive: Directive::SetDo { index: GRIPPER_OUTPUT, status: false }, settle_ms: 0 }]),
    }
}

/// The snapshot after command `c`: a release lets go of the held object.
pub open spec fn after_command(p: Properties, c: Command) -> Properties {
    if c == Command::Release {
        Properties { h: HandObject { holding: None, ..p.h }, ..p }
    } else {
        p
    }
}

fn single(directive: Directive) -> (r: Vec<Step>)
    ensures
        r@ == seq![Step { directive, settle_ms: 0 }],
{
    let mut r: Vec<Step> = Vec::new();
    r.push(Step { directive, settle_ms: 0 });
    assert(r@ =~= seq![Step { directive, settle_ms: 0 }]);
    r
}

/// Turns a planner command into timed directives for the robot.
pub fn dispatch(props: &mut Properties, command: &Command) -> (r: Result<Vec<Step>, DispatchError>)
    requires
        old(props).wf(),
    ensures
        *final(props) == after_command(*old(props), *command),
        final(props).wf(),
        match r {
            Ok(steps) => command_steps(old(props).h.position, *command) == Some(steps@),
            Err(_) => command_steps(old(props).h.position, *command) is None,
        },
{
    let hand: Vec4 = props.h.position;
    match *command {
        Command::EnableRobot => Ok(single(Directive::EnableRobot)),
        Command::MovJ(x, y, z, r) => Ok(single(Directive::MovJ { x, y, z, r })),
        Command::Move(dx, dy, dz, dr) => {
            match (hand.x.checked_add(dx), hand.y.checked_add(dy), hand.z.checked_add(dz), hand.w.checked_add(dr)) {
                (Some(x), Some(y), Some(z), Some(r)) => Ok(single(Directive::MovJ { x, y, z, r })),
                _ => Err(DispatchError::MoveOutOfRange),
            }
        },
        Command::Grab => {
            let mut steps: Vec<Step> = Vec::new();
            steps.push(Step {
                directive: Directive::MovJ { x: hand.x, y: hand.y, z: hand.z - GRAB_DESCENT, r: hand.w },
                settle_ms: SETTLE_MS,
            });
            steps.push(Step { directive: Directive::SetDo { index: GRIPPER_OUTPUT, status: true }, settle_ms: SETTLE_MS });
            steps.push(Step { directive: Directive::MovJ { x: hand.x, y: hand.y, z: hand.z, r: hand.w }, settle_ms: 0 });
            assert(steps@ =~= grab_steps(hand));
            Ok(steps)
        },
        Command::Release => {
            props.h.holding = None;
            Ok(single(Directive::SetDo { index: GRIPPER_OUTPUT, status: false }))
        },
    }
}

/// Why a tick issued no directive.
#[derive(Clone, Copy, Debug, PartialEq, Eq, Structural)]
pub enum TickIssue {
    /// The planner sent no command before the wait timed out.
    NoCommand,
    /// The planner's message carried no usable command.
    BadCommand(CommandError),
    /// The command could not be turned into directives.
    Undispatchable(DispatchError),
}

pub open spec fn tick_result(p: Properties, received: Option<Result<Command, CommandError>>) -> Result<Seq<Step>, TickIssue> {
    match received {
        None => Err(TickIssue::NoCommand),
        Some(Err(e)) => Err(TickIssue::BadCommand(e)),
        Some(Ok(c)) => match command_steps(p.h.position, c) {
            Some(s) => Ok(s),
            None => Err(TickIssue::Undispatchable(DispatchError::MoveOutOfRange)),
        },
    }
}

/// Ends a tick once the command wait is over (`None` when it timed out):
/// dispatches a received command and moves the outbound timestamp on, whether
/// or not a command came.
pub fn finish_tick(
    link: &mut AeraProtocol,
    props: &mut Properties,
    received: Option<Result<Command, CommandError>>,
) -> (r: Result<Vec<Step>, TickIssue>)
    requires
        old(props).wf(),
        old(link).spec_timestamp() <= u64::MAX - TIMESTAMP_STEP,
    ensures
        final(link).spec_timestamp() == old(link).spec_timestamp() + TIMESTAMP_STEP,
        final(link).wf() == old(link).wf(),
        final(props).wf(),
        *final(props) == match received {
            Some(Ok(c)) => after_command(*old(props), c),
            _ => *old(props),
        },
        match r {
            Ok(steps) => tick_result(*old(props), received) == Ok::<Seq<Step>, TickIssue>(steps@),
            Err(e) => tick_result(*old(props), received) == Err::<Seq<Step>, TickIssue>(e),
        },
{
    link.increase_timestamp();
    match received {
        None => Err(TickIssue::NoCommand),
        Some(Err(e)) => Err(TickIssue::BadCommand(e)),
        Some(Ok(c)) => match dispatch(props, &c) {
            Ok(steps) => Ok(steps),
            Err(e) => Err(TickIssue::Undispatchable(e)),
        },
    }
}


/// Perception fills the free slots in order: the k-th free slot takes the
/// class and position of the k-th detection, and the free slots beyond the
/// detections read "unclassified, not visible".
pub proof fn lemma_detections_fill_free_slots(old: Properties, dets: Seq<Detection>, t: Telemetry)
    ensures
        forall|k: int|
            0 <= k < free_slots(old.h.holding).len() ==> {
                let s = #[trigger] free_slots(old.h.holding)[k];
                let o = tick_slot(old, s, dets, t);
                if k < dets.len() {
                    o.class == dets[k].class && o.position == dets[k].position
                } else {
                    o.class == UNSET && o.position == (Vec2 { x: UNSET, y: UNSET })
                }
            },
{
    assert forall|k: int| 0 <= k < free_slots(old.h.holding).len() implies rank(
        old.h.holding,
        #[trigger] free_slots(old.h.holding)[k],
    ) == k && old.h.holding != Some(free_slots(old.h.holding)[k]) by {}
}

/// The holding reference is set, to the first slot, only on a tick that starts
/// with nothing held and whose telemetry shows the gripper closed while
/// perception sees nothing; a tick's update never moves or clears it, and of
/// the commands only a release changes it, to nothing.
pub proof fn lemma_holding_changes(p: Properties, dets: Seq<Detection>, t: Telemetry, c: Command)
    ensures
        holding_after(p.h.holding, t, dets) != p.h.holding ==> p.h.holding is None
            && gripper_closed(t.digital_outputs) && dets.len() == 0
            && holding_after(p.h.holding, t, dets) == Some(Slot::Co1),
        holding_after(p.h.holding, t, dets) is Some ==> p.h.holding is Some || (gripper_closed(
            t.digital_outputs,
        ) && dets.len() == 0),
        p.h.holding is Some ==> holding_after(p.h.holding, t, dets) == p.h.holding,
        after_command(p, c).h.holding != p.h.holding ==> c == Command::Release,
        after_command(p, c).h.holding is Some ==> c != Command::Release && after_command(p, c).h.holding
            == p.h.holding,
{
}

} // verus!
