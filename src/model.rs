use vstd::prelude::*;

verus! {

/// Largest magnitude of a coordinate (pixels, millimetres or degrees) that the
/// bridge accepts from perception and telemetry.
pub const COORD_LIMIT: i64 = 1_000_000_000;

/// Value of a pixel coordinate, class or size that says "not visible" or "unknown".
pub const UNSET: i64 = -1;

pub open spec fn coord_ok(v: i64) -> bool {
    -COORD_LIMIT <= v <= COORD_LIMIT
}

/// A pixel position in the camera image.
#[derive(Clone, Copy, Debug, PartialEq, Eq, Structural)]
pub struct Vec2 {
    pub x: i64,
    pub y: i64,
}

/// A world pose: position in millimetres and approach angle in degrees.
#[derive(Clone, Copy, Debug, PartialEq, Eq, Structural)]
pub struct Vec4 {
    pub x: i64,
    pub y: i64,
    pub z: i64,
    pub w: i64,
}

impl Vec2 {
    pub open spec fn in_range(self) -> bool {
        coord_ok(self.x) && coord_ok(self.y)
    }

    pub fn new(x: i64, y: i64) -> (r: Vec2)
        ensures
            r == (Vec2 { x, y }),
    {
        Vec2 { x, y }
    }

    pub fn is_in_range(&self) -> (r: bool)
        ensures
            r == self.in_range(),
    {
        -COORD_LIMIT <= self.x && self.x <= COORD_LIMIT && -COORD_LIMIT <= self.y && self.y
            <= COORD_LIMIT
    }
}

impl Vec4 {
    pub open spec fn in_range(self) -> bool {
        coord_ok(self.x) && coord_ok(self.y) && coord_ok(self.z) && coord_ok(self.w)
    }

    pub fn new(x: i64, y: i64, z: i64, w: i64) -> (r: Vec4)
        ensures
            r == (Vec4 { x, y, z, w }),
    {
        Vec4 { x, y, z, w }
    }
}

/// One of the three fixed camera-object identities.
#[derive(Clone, Copy, Debug, PartialEq, Eq, Structural)]
pub enum Slot {
    Co1,
    Co2,
    Co3,
}

pub open spec fn slot_name(s: Slot) -> Seq<char> {
    match s {
        Slot::Co1 => "co1"@,
        Slot::Co2 => "co2"@,
        Slot::Co3 => "co3"@,
    }
}

impl Slot {
    /// The symbolic name under which the planner knows this slot.
    pub fn name(&self) -> (r: &'static str)
        ensures
            r@ == slot_name(*self),
    {
        match self {
            Slot::Co1 => "co1",
            Slot::Co2 => "co2",
            Slot::Co3 => "co3",
        }
    }
}

/// What the bridge knows of one object seen by the camera.
#[derive(Clone, Copy, Debug, PartialEq, Eq, Structural)]
pub struct CameraObject {
    pub position: Vec2,
    pub predicted_grab_pos: Vec4,
    pub class: i64,
    pub size: i64,
}

pub open spec fn unset_object() -> CameraObject {
    CameraObject {
        position: Vec2 { x: UNSET, y: UNSET },
        predicted_grab_pos: Vec4 { x: UNSET, y: UNSET, z: UNSET, w: UNSET },
        class: UNSET,
        size: UNSET,
    }
}

impl CameraObject {
    pub fn new() -> (r: CameraObject)
        ensures
            r == unset_object(),
    {
        CameraObject {
            position: Vec2 { x: UNSET, y: UNSET },
            predicted_grab_pos: Vec4 { x: UNSET, y: UNSET, z: UNSET, w: UNSET },
            class: UNSET,
            size: UNSET,
        }
    }

    /// Back to "not visible, unclassified".
    pub fn set_default(&mut self)
        ensures
            *final(self) == unset_object(),
    {
        *self = CameraObject::new();
    }
}

/// The gripper: its pose and the camera object it holds, if any.
#[derive(Clone, Copy, Debug, PartialEq, Eq, Structural)]
pub struct HandObject {
    pub position: Vec4,
    pub holding: Option<Slot>,
}

impl HandObject {
    pub fn new() -> (r: HandObject)
        ensures
            r == (HandObject { position: Vec4 { x: 0, y: 0, z: 0, w: 0 }, holding: None }),
    {
        HandObject { position: Vec4 { x: 0, y: 0, z: 0, w: 0 }, holding: None }
    }
}

/// The state snapshot shared with the planner every tick.
#[derive(Clone, Copy, Debug, PartialEq, Eq, Structural)]
pub struct Properties {
    pub co1: CameraObject,
    pub co2: CameraObject,
    pub co3: CameraObject,
    pub h: HandObject,
}

impl Properties {
    pub fn new() -> (r: Properties)
        ensures
            r.co1 == unset_object(),
            r.co2 == unset_object(),
            r.co3 == unset_object(),
            r.h == (HandObject { position: Vec4 { x: 0, y: 0, z: 0, w: 0 }, holding: None }),
            r.wf(),
    {
        Properties {
            co1: CameraObject::new(),
            co2: CameraObject::new(),
            co3: CameraObject::new(),
            h: HandObject::new(),
        }
    }

    pub open spec fn slot(self, s: Slot) -> CameraObject {
        match s {
            Slot::Co1 => self.co1,
            Slot::Co2 => self.co2,
            Slot::Co3 => self.co3,
        }
    }

    /// Positions stay within the accepted range.
    pub open spec fn wf(self) -> bool {
        &&& self.h.position.in_range()
        &&& self.co1.position.in_range()
        &&& self.co2.position.in_range()
        &&& self.co3.position.in_range()
    }
}

/// One object reported by perception: its class and pixel position.
#[derive(Clone, Copy, Debug, PartialEq, Eq, Structural)]
pub struct Detection {
    pub class: i64,
    pub position: Vec2,
}

/// The fields of a robot telemetry record that the bridge reads.
#[derive(Clone, Copy, Debug, PartialEq, Eq, Structural)]
pub struct Telemetry {
    /// Digital output bit flags.
    pub digital_outputs: i32,
    /// Tool pose: x, y, z in millimetres and the rotation r in degrees.
    pub tool_pose: Vec4,
}

/// Index of the digital output that drives the gripper.
pub const GRIPPER_OUTPUT: i32 = 3;

/// Bit of the digital outputs that reads back as "gripper closed".
pub const GRIPPER_CLOSED_BIT: u32 = 2;

pub open spec fn gripper_closed(digital_outputs: i32) -> bool {
    (digital_outputs >> GRIPPER_CLOSED_BIT) & 1i32 != 0
}

impl Telemetry {
    pub open spec fn wf(self) -> bool {
        self.tool_pose.in_range()
    }

    /// Whether the gripper-closed bit is set.
    pub fn gripper_closed(&self) -> (r: bool)
        ensures
            r == gripper_closed(self.digital_outputs),
    {
        (self.digital_outputs >> GRIPPER_CLOSED_BIT) & 1i32 != 0
    }
}

/// A command received from the planner.
#[derive(Clone, Copy, Debug, PartialEq, Eq, Structural)]
pub enum Command {
    /// Absolute move to x, y, z, r.
    MovJ(i64, i64, i64, i64),
    /// Relative move by x, y, z, r.
    Move(i64, i64, i64, i64),
    /// Grab with the gripper.
    Grab,
    /// Release what the gripper holds.
    Release,
    /// Enable the robot.
    EnableRobot,
}

} // verus!
