use vstd::prelude::*;
use crate::bytes::{i64_le, i64_of_le, le_bytes_to_i64, lemma_i64_le, lemma_le_i64, push_i64_le};
use crate::model::{CameraObject, Command, HandObject, Properties, Slot, Vec2, Vec4, UNSET};
use crate::registry::{assigns, lemma_assigns_unique, CommIds};

verus! {

pub const ID_H: i32 = 1;
pub const ID_C: i32 = 2;
pub const ID_CO1: i32 = 3;
pub const ID_CO2: i32 = 4;
pub const ID_CO3: i32 = 5;
pub const ID_POSITION: i32 = 6;
pub const ID_HOLDING: i32 = 7;
pub const ID_SIZE: i32 = 8;
pub const ID_OBJ_TYPE: i32 = 9;
pub const ID_MOV_J: i32 = 10;
pub const ID_MOVE: i32 = 11;
pub const ID_ENABLE_ROBOT: i32 = 12;
pub const ID_GRAB: i32 = 13;
pub const ID_RELEASE: i32 = 14;
pub const ID_PREDICTED_GRAB_POS: i32 = 15;

/// Number of variables that describe a snapshot in a data message.
pub const SNAPSHOT_VARS: usize = 11;

/// The symbolic names known to both ends of the planner link, in id order.
pub open spec fn vocabulary() -> Seq<Seq<char>> {
    seq![
        "h"@,
        "c"@,
        "co1"@,
        "co2"@,
        "co3"@,
        "position"@,
        "holding"@,
        "size"@,
        "obj_type"@,
        "mov_j"@,
        "move"@,
        "enable_robot"@,
        "grab"@,
        "release"@,
        "predicted_grab_pos"@,
    ]
}

/// Each name of the vocabulary is listed once, so it gets its position as id.
pub proof fn lemma_vocabulary_ids()
    ensures
        vocabulary().len() == 15,
        forall|k: int| 0 <= k < 15 ==> assigns(vocabulary(), #[trigger] vocabulary()[k], k + 1),
{
    reveal_strlit("h");
    reveal_strlit("c");
    reveal_strlit("co1");
    reveal_strlit("co2");
    reveal_strlit("co3");
    reveal_strlit("position");
    reveal_strlit("holding");
    reveal_strlit("size");
    reveal_strlit("obj_type");
    reveal_strlit("mov_j");
    reveal_strlit("move");
    reveal_strlit("enable_robot");
    reveal_strlit("grab");
    reveal_strlit("release");
    reveal_strlit("predicted_grab_pos");
    let v = vocabulary();
    assert forall|i: int, j: int| 0 <= i < j < 15 implies v[i] != v[j] by {
        if v[i] == v[j] {
            assert(v[i].len() == v[j].len());
            assert(v[i][0] == v[j][0]);
            assert(v[i][v[i].len() - 1] == v[j][v[j].len() - 1]);
        }
    }
}

/// Scalar type tag of a protocol variable.
#[derive(Clone, Copy, Debug, PartialEq, Eq, Structural)]
pub enum DataType {
    Double,
    Int64,
    CommunicationId,
}

/// Metadata of a protocol variable.
#[derive(Debug)]
pub struct VariableDescription {
    pub entity_id: i32,
    pub id: i32,
    pub data_type: DataType,
    pub dimensions: Vec<u64>,
    pub opcode_string_handle: String,
}

/// A protocol variable: metadata and raw little-endian payload.
#[derive(Debug)]
pub struct ProtoVariable {
    pub meta_data: Option<VariableDescription>,
    pub data: Vec<u8>,
}

/// A command name and the variable that carries it.
#[derive(Debug)]
pub struct CommandDescription {
    pub description: VariableDescription,
    pub name: String,
}

pub open spec fn describes(
    d: VariableDescription,
    entity: i32,
    id: i32,
    ty: DataType,
    dim: u64,
    hint: Seq<char>,
) -> bool {
    &&& d.entity_id == entity
    &&& d.id == id
    &&& d.data_type == ty
    &&& d.dimensions@ == seq![dim]
    &&& d.opcode_string_handle@ == hint
}

pub open spec fn is_var(
    v: ProtoVariable,
    entity: i32,
    id: i32,
    ty: DataType,
    dim: u64,
    hint: Seq<char>,
    data: Seq<u8>,
) -> bool {
    &&& v.meta_data is Some
    &&& describes(v.meta_data->0, entity, id, ty, dim, hint)
    &&& v.data@ == data
}

pub open spec fn vec2_le(v: Vec2) -> Seq<u8> {
    i64_le(v.x) + i64_le(v.y)
}

pub open spec fn vec4_le(v: Vec4) -> Seq<u8> {
    i64_le(v.x) + i64_le(v.y) + i64_le(v.z) + i64_le(v.w)
}

pub open spec fn slot_id(s: Slot) -> i32 {
    match s {
        Slot::Co1 => ID_CO1,
        Slot::Co2 => ID_CO2,
        Slot::Co3 => ID_CO3,
    }
}

/// What the holding variable carries: the held slot's id, or -1 for nothing.
pub open spec fn holding_code(h: Option<Slot>) -> i64 {
    match h {
        None => -1i64,
        Some(s) => slot_id(s) as i64,
    }
}

/// Three variables from `at` on describe a camera object: position,
/// predicted grab position and class.
pub open spec fn encodes_object(vs: Seq<ProtoVariable>, at: int, entity: i32, o: CameraObject) -> bool {
    &&& is_var(vs[at], entity, ID_POSITION, DataType::Int64, 2, "vec2"@, vec2_le(o.position))
    &&& is_var(
        vs[at + 1],
        entity,
        ID_PREDICTED_GRAB_POS,
        DataType::Int64,
        4,
        "vec4"@,
        vec4_le(o.predicted_grab_pos),
    )
    &&& is_var(vs[at + 2], entity, ID_OBJ_TYPE, DataType::Int64, 1, "set"@, i64_le(o.class))
}

/// The first variables of a data message describe snapshot `p`: the three
/// camera objects, then the hand's position and what it holds.
pub open spec fn encodes_snapshot(vs: Seq<ProtoVariable>, p: Properties) -> bool {
    &&& vs.len() >= SNAPSHOT_VARS
    &&& encodes_object(vs, 0, ID_CO1, p.co1)
    &&& encodes_object(vs, 3, ID_CO2, p.co2)
    &&& encodes_object(vs, 6, ID_CO3, p.co3)
    &&& is_var(vs[9], ID_H, ID_POSITION, DataType::Int64, 4, "vec4"@, vec4_le(p.h.position))
    &&& is_var(
        vs[10],
        ID_H,
        ID_HOLDING,
        DataType::CommunicationId,
        1,
        "set"@,
        i64_le(holding_code(p.h.holding)),
    )
}

pub open spec fn move_le(x: i64, y: i64, z: i64, r: i64) -> Seq<u8> {
    i64_le(x) + i64_le(y) + i64_le(z) + i64_le(r)
}

/// Variable `v` announces command `c`, as its description in the setup
/// message says.
pub open spec fn encodes_command(v: ProtoVariable, c: Command) -> bool {
    match c {
        Command::MovJ(x, y, z, r) => is_var(
            v,
            ID_H,
            ID_MOV_J,
            DataType::Int64,
            4,
            "vec4"@,
            move_le(x, y, z, r),
        ),
        Command::Move(x, y, z, r) => is_var(
            v,
            ID_H,
            ID_MOVE,
            DataType::Int64,
            4,
            "vec4"@,
            move_le(x, y, z, r),
        ),
        Command::Grab => is_var(v, ID_H, ID_GRAB, DataType::CommunicationId, 0, ""@, seq![]),
        Command::Release => is_var(v, ID_H, ID_RELEASE, DataType::CommunicationId, 0, ""@, seq![]),
        Command::EnableRobot => is_var(
            v,
            ID_H,
            ID_ENABLE_ROBOT,
            DataType::CommunicationId,
            0,
            ""@,
            seq![],
        ),
    }
}

fn description(entity: i32, id: i32, ty: DataType, dim: u64, hint: &str) -> (r: VariableDescription)
    ensures
        describes(r, entity, id, ty, dim, hint@),
{
    let mut dimensions: Vec<u64> = Vec::new();
    dimensions.push(dim);
    assert(dimensions@ =~= seq![dim]);
    VariableDescription {
        entity_id: entity,
        id,
        data_type: ty,
        dimensions,
        opcode_string_handle: hint.to_owned(),
    }
}

fn variable(entity: i32, id: i32, ty: DataType, dim: u64, hint: &str, data: Vec<u8>) -> (r:
    ProtoVariable)
    ensures
        is_var(r, entity, id, ty, dim, hint@, data@),
{
    ProtoVariable { meta_data: Some(description(entity, id, ty, dim, hint)), data }
}

fn vec2_bytes(v: &Vec2) -> (r: Vec<u8>)
    ensures
        r@ == vec2_le(*v),
{
    let mut out: Vec<u8> = Vec::new();
    push_i64_le(&mut out, v.x);
    push_i64_le(&mut out, v.y);
    assert(out@ =~= vec2_le(*v));
    out
}

fn vec4_bytes(x: i64, y: i64, z: i64, w: i64) -> (r: Vec<u8>)
    ensures
        r@ == move_le(x, y, z, w),
{
    let mut out: Vec<u8> = Vec::new();
    push_i64_le(&mut out, x);
    push_i64_le(&mut out, y);
    push_i64_le(&mut out, z);
    push_i64_le(&mut out, w);
    assert(out@ =~= move_le(x, y, z, w));
    out
}

fn i64_bytes(v: i64) -> (r: Vec<u8>)
    ensures
        r@ == i64_le(v),
{
    let mut out: Vec<u8> = Vec::new();
    push_i64_le(&mut out, v);
    assert(out@ =~= i64_le(v));
    out
}

/// Why an inbound message carries no command.
#[derive(Clone, Copy, Debug, PartialEq, Eq, Structural)]
pub enum CommandError {
    /// The message is not a data message.
    NotDataMessage,
    /// The data message holds no variable.
    EmptyDataMessage,
    /// The command variable has no metadata.
    MissingMetadata,
    /// No name has this id.
    UnsupportedId(i32),
    /// The id names something that is not a command.
    UnhandledId(i32),
    /// A move command with fewer than four scalars.
    ShortPayload(i32),
    /// The message's bytes do not decode as an envelope.
    Undecodable,
}

/// The `k`-th little-endian scalar of a payload.
pub open spec fn word(d: Seq<u8>, k: int) -> i64 {
    i64_of_le(d.subrange(8 * k, 8 * k + 8))
}

/// The command that the variables of a data message carry: the first
/// variable's id selects it, and a move takes its four scalars from the payload.
pub open spec fn decoded_command(vars: Seq<ProtoVariable>) -> Result<Command, CommandError> {
    if vars.len() == 0 {
        Err(CommandError::EmptyDataMessage)
    } else if vars[0].meta_data is None {
        Err(CommandError::MissingMetadata)
    } else {
        let id = vars[0].meta_data->0.id;
        let d = vars[0].data@;
        if id < 1 || id > 15 {
            Err(CommandError::UnsupportedId(id))
        } else if id == ID_MOV_J || id == ID_MOVE {
            if d.len() < 32 {
                Err(CommandError::ShortPayload(id))
            } else if id == ID_MOV_J {
                Ok(Command::MovJ(word(d, 0), word(d, 1), word(d, 2), word(d, 3)))
            } else {
                Ok(Command::Move(word(d, 0), word(d, 1), word(d, 2), word(d, 3)))
            }
        } else if id == ID_GRAB {
            Ok(Command::Grab)
        } else if id == ID_RELEASE {
            Ok(Command::Release)
        } else if id == ID_ENABLE_ROBOT {
            Ok(Command::EnableRobot)
        } else {
            Err(CommandError::UnhandledId(id))
        }
    }
}

/// What a data message reports of a snapshot: everything but the sizes,
/// which are not sent.
pub open spec fn reported(p: Properties) -> Properties {
    Properties {
        co1: CameraObject { size: UNSET, ..p.co1 },
        co2: CameraObject { size: UNSET, ..p.co2 },
        co3: CameraObject { size: UNSET, ..p.co3 },
        h: p.h,
    }
}

fn read_word(data: &Vec<u8>, k: usize) -> (r: i64)
    requires
        k < 4,
        data@.len() >= 8 * k + 8,
    ensures
        r == word(data@, k as int),
{
    le_bytes_to_i64(vstd::slice::slice_subrange(data.as_slice(), 8 * k, 8 * k + 8))
}

proof fn lemma_words2(d: Seq<u8>)
    requires
        d.len() == 16,
    ensures
        d == vec2_le(Vec2 { x: word(d, 0), y: word(d, 1) }),
{
    lemma_le_i64(d.subrange(0, 8));
    lemma_le_i64(d.subrange(8, 16));
    assert(d =~= d.subrange(0, 8) + d.subrange(8, 16));
}

proof fn lemma_words4(d: Seq<u8>)
    requires
        d.len() == 32,
    ensures
        d == move_le(word(d, 0), word(d, 1), word(d, 2), word(d, 3)),
{
    lemma_le_i64(d.subrange(0, 8));
    lemma_le_i64(d.subrange(8, 16));
    lemma_le_i64(d.subrange(16, 24));
    lemma_le_i64(d.subrange(24, 32));
    assert(d =~= d.subrange(0, 8) + d.subrange(8, 16) + d.subrange(16, 24) + d.subrange(24, 32));
}

proof fn lemma_word1(d: Seq<u8>)
    requires
        d.len() == 8,
    ensures
        d == i64_le(word(d, 0)),
{
    lemma_le_i64(d.subrange(0, 8));
    assert(d =~= d.subrange(0, 8));
}

proof fn lemma_vec2_words(v: Vec2)
    ensures
        vec2_le(v).len() == 16,
        word(vec2_le(v), 0) == v.x,
        word(vec2_le(v), 1) == v.y,
{
    lemma_i64_le(v.x);
    lemma_i64_le(v.y);
    let d = vec2_le(v);
    assert(d.subrange(0, 8) =~= i64_le(v.x));
    assert(d.subrange(8, 16) =~= i64_le(v.y));
}

proof fn lemma_move_words(x: i64, y: i64, z: i64, w: i64)
    ensures
        move_le(x, y, z, w).len() == 32,
        word(move_le(x, y, z, w), 0) == x,
        word(move_le(x, y, z, w), 1) == y,
        word(move_le(x, y, z, w), 2) == z,
        word(move_le(x, y, z, w), 3) == w,
{
    lemma_i64_le(x);
    lemma_i64_le(y);
    lemma_i64_le(z);
    lemma_i64_le(w);
    let d = move_le(x, y, z, w);
    assert(d.subrange(0, 8) =~= i64_le(x));
    assert(d.subrange(8, 16) =~= i64_le(y));
    assert(d.subrange(16, 24) =~= i64_le(z));
    assert(d.subrange(24, 32) =~= i64_le(w));
}

proof fn lemma_word_of(v: i64)
    ensures
        i64_le(v).len() == 8,
        word(i64_le(v), 0) == v,
{
    lemma_i64_le(v);
    assert(i64_le(v).subrange(0, 8) =~= i64_le(v));
}

/// An announced command carries one eight-byte scalar per dimension that its
/// variable's description states: four for a move, none for the others.
pub proof fn lemma_command_payload_matches_dimensions(v: ProtoVariable, c: Command)
    requires
        encodes_command(v, c),
    ensures
        v.meta_data->0.dimensions@.len() == 1,
        v.data@.len() == 8 * v.meta_data->0.dimensions@[0],
{
    match c {
        Command::MovJ(x, y, z, w) => lemma_move_words(x, y, z, w),
        Command::Move(x, y, z, w) => lemma_move_words(x, y, z, w),
        _ => {},
    }
}

/// An echoed command reads back as itself.
pub proof fn lemma_command_round_trip(v: ProtoVariable, c: Command)
    requires
        encodes_command(v, c),
    ensures
        decoded_command(seq![v]) == Ok::<Command, CommandError>(c),
{
    match c {
        Command::MovJ(x, y, z, w) => lemma_move_words(x, y, z, w),
        Command::Move(x, y, z, w) => lemma_move_words(x, y, z, w),
        _ => {},
    }
}

/// Whether `v` is described as given and carries `len` bytes.
fn matches_var(v: &ProtoVariable, entity: i32, id: i32, ty: DataType, dim: u64, hint: &str, len: usize) -> (r: bool)
    ensures
        r == (v.meta_data is Some && describes(v.meta_data->0, entity, id, ty, dim, hint@)
            && v.data@.len() == len),
{
    match &v.meta_data {
        None => false,
        Some(d) => {
            if d.entity_id != entity || d.id != id || d.data_type != ty || d.dimensions.len() != 1
                || d.dimensions[0] != dim || v.data.len() != len {
                assert(d.dimensions@.len() != 1 || d.dimensions@ != seq![dim] || v.data@.len() != len
                    || d.entity_id != entity || d.id != id || d.data_type != ty);
                return false;
            }
            assert(d.dimensions@ =~= seq![dim]);
            let h: String = hint.to_owned();
            d.opcode_string_handle == h
        },
    }
}

/// Increment of the outbound timestamp per tick.
pub const TIMESTAMP_STEP: u64 = 100;

/// The planner link's state apart from its socket: the registry of names and
/// the outbound timestamp.
pub struct AeraProtocol {
    comm_ids: CommIds,
    timestamp: u64,
}

impl AeraProtocol {
    /// The registry holds the vocabulary, in order.
    pub closed spec fn wf(&self) -> bool {
        &&& self.comm_ids.wf()
        &&& self.comm_ids@ == vocabulary()
    }

    pub closed spec fn spec_timestamp(&self) -> u64 {
        self.timestamp
    }

    pub fn new() -> (r: AeraProtocol)
        ensures
            r.wf(),
            r.spec_timestamp() == 0,
    {
        let names: [&str; 15] = [
            "h",
            "c",
            "co1",
            "co2",
            "co3",
            "position",
            "holding",
            "size",
            "obj_type",
            "mov_j",
            "move",
            "enable_robot",
            "grab",
            "release",
            "predicted_grab_pos",
        ];
        let comm_ids = CommIds::from_list(names.as_slice());
        assert(names@.map_values(|s: &str| s@) =~= vocabulary());
        AeraProtocol { comm_ids, timestamp: 0 }
    }

    pub fn timestamp(&self) -> (r: u64)
        ensures
            r == self.spec_timestamp(),
    {
        self.timestamp
    }

    /// Moves the outbound timestamp on by one tick.
    pub fn increase_timestamp(&mut self)
        requires
            old(self).spec_timestamp() <= u64::MAX - TIMESTAMP_STEP,
        ensures
            final(self).wf() == old(self).wf(),
            final(self).spec_timestamp() == old(self).spec_timestamp() + TIMESTAMP_STEP,
    {
        self.timestamp = self.timestamp + TIMESTAMP_STEP;
    }

    /// The registry's id of a name of the vocabulary.
    fn id(&self, name: &str) -> (r: i32)
        requires
            self.wf(),
            vocabulary().contains(name@),
        ensures
            forall|k: int| 0 <= k < 15 && #[trigger] vocabulary()[k] == name@ ==> r == k + 1,
    {
        let r = self.comm_ids.get(name);
        proof {
            lemma_vocabulary_ids();
            assert forall|k: int| 0 <= k < 15 && #[trigger] vocabulary()[k] == name@ implies r == k
                + 1 by {
                lemma_assigns_unique(vocabulary(), name@, r as int, k + 1);
            }
        }
        r
    }

    fn slot_id(&self, slot: Slot) -> (r: i32)
        requires
            self.wf(),
        ensures
            r == slot_id(slot),
    {
        let name = slot.name();
        assert(vocabulary()[2] == "co1"@);
        assert(vocabulary()[3] == "co2"@);
        assert(vocabulary()[4] == "co3"@);
        self.id(name)
    }

    fn camera_object_properties(&self, slot: Slot, object: &CameraObject) -> (r: Vec<
        ProtoVariable,
    >)
        requires
            self.wf(),
        ensures
            r@.len() == 3,
            encodes_object(r@, 0, slot_id(slot), *object),
    {
        let entity = self.slot_id(slot);
        assert(vocabulary()[5] == "position"@);
        assert(vocabulary()[8] == "obj_type"@);
        assert(vocabulary()[14] == "predicted_grab_pos"@);
        let position = self.id("position");
        let predicted = self.id("predicted_grab_pos");
        let obj_type = self.id("obj_type");
        let mut r: Vec<ProtoVariable> = Vec::new();
        r.push(variable(entity, position, DataType::Int64, 2, "vec2", vec2_bytes(&object.position)));
        let g = object.predicted_grab_pos;
        r.push(variable(entity, predicted, DataType::Int64, 4, "vec4", vec4_bytes(g.x, g.y, g.z, g.w)));
        r.push(variable(entity, obj_type, DataType::Int64, 1, "set", i64_bytes(object.class)));
        r
    }

    fn hand_object_properties(&self, object: &HandObject) -> (r: Vec<ProtoVariable>)
        requires
            self.wf(),
        ensures
            r@.len() == 2,
            is_var(r@[0], ID_H, ID_POSITION, DataType::Int64, 4, "vec4"@, vec4_le(object.position)),
            is_var(
                r@[1],
                ID_H,
                ID_HOLDING,
                DataType::CommunicationId,
                1,
                "set"@,
                i64_le(holding_code(object.holding)),
            ),
    {
        assert(vocabulary()[0] == "h"@);
        assert(vocabulary()[5] == "position"@);
        assert(vocabulary()[6] == "holding"@);
        let h = self.id("h");
        let position = self.id("position");
        let holding = self.id("holding");
        let code: i64 = match object.holding {
            Some(s) => self.slot_id(s) as i64,
            None => -1,
        };
        let p = object.position;
        let mut r: Vec<ProtoVariable> = Vec::new();
        r.push(variable(h, position, DataType::Int64, 4, "vec4", vec4_bytes(p.x, p.y, p.z, p.w)));
        r.push(variable(h, holding, DataType::CommunicationId, 1, "set", i64_bytes(code)));
        r
    }

    /// The variable that announces `command`.
    pub fn command_proprty(&self, command: &Command) -> (r: ProtoVariable)
        requires
            self.wf(),
        ensures
            encodes_command(r, *command),
    {
        assert(vocabulary()[0] == "h"@);
        assert(vocabulary()[9] == "mov_j"@);
        assert(vocabulary()[10] == "move"@);
        assert(vocabulary()[11] == "enable_robot"@);
        assert(vocabulary()[12] == "grab"@);
        assert(vocabulary()[13] == "release"@);
        let h = self.id("h");
        match *command {
            Command::MovJ(x, y, z, w) => {
                let id = self.id("mov_j");
                variable(h, id, DataType::Int64, 4, "vec4", vec4_bytes(x, y, z, w))
            },
            Command::Move(x, y, z, w) => {
                let id = self.id("move");
                variable(h, id, DataType::Int64, 4, "vec4", vec4_bytes(x, y, z, w))
            },
            Command::Grab => {
                let id = self.id("grab");
                variable(h, id, DataType::CommunicationId, 0, "", Vec::new())
            },
            Command::Release => {
                let id = self.id("release");
                variable(h, id, DataType::CommunicationId, 0, "", Vec::new())
            },
            Command::EnableRobot => {
                let id = self.id("enable_robot");
                variable(h, id, DataType::CommunicationId, 0, "", Vec::new())
            },
        }
    }

    /// The variables of the data message that publishes `properties`,
    /// followed by `command` when one is echoed to the planner.
    pub fn properties_variables(&self, properties: &Properties, command: Option<&Command>) -> (r:
        Vec<ProtoVariable>)
        requires
            self.wf(),
        ensures
            encodes_snapshot(r@, *properties),
            r@.len() == SNAPSHOT_VARS + if command is Some { 1int } else { 0 },
            command matches Some(c) ==> encodes_command(r@[SNAPSHOT_VARS as int], *c),
    {
        let mut r = self.camera_object_properties(Slot::Co1, &properties.co1);
        let mut v2 = self.camera_object_properties(Slot::Co2, &properties.co2);
        let mut v3 = self.camera_object_properties(Slot::Co3, &properties.co3);
        let mut vh = self.hand_object_properties(&properties.h);
        let ghost a = r@;
        let ghost b = v2@;
        let ghost c = v3@;
        let ghost d = vh@;
        r.append(&mut v2);
        r.append(&mut v3);
        r.append(&mut vh);
        assert(r@ =~= a + b + c + d);
        assert(encodes_object(r@, 3, ID_CO2, properties.co2)) by {
            assert(r@[3] == b[0]);
            assert(r@[4] == b[1]);
            assert(r@[5] == b[2]);
        }
        assert(encodes_object(r@, 6, ID_CO3, properties.co3)) by {
            assert(r@[6] == c[0]);
            assert(r@[7] == c[1]);
            assert(r@[8] == c[2]);
        }
        assert(r@[9] == d[0]);
        assert(r@[10] == d[1]);
        match command {
            Some(c) => {
                let v = self.command_proprty(c);
                r.push(v);
            },
            None => {},
        }
        r
    }
}


impl AeraProtocol {
    /// The command carried by an inbound message; `vars` is `None` when the
    /// message is not a data message.
    pub fn command_from_variables(&self, vars: Option<&[ProtoVariable]>) -> (r: Result<
        Command,
        CommandError,
    >)
        requires
            self.wf(),
        ensures
            r == match vars {
                None => Err(CommandError::NotDataMessage),
                Some(vs) => decoded_command(vs@),
            },
    {
        let vs = match vars {
            None => {
                return Err(CommandError::NotDataMessage);
            },
            Some(vs) => vs,
        };
        if vs.len() == 0 {
            return Err(CommandError::EmptyDataMessage);
        }
        let command_var = &vs[0];
        let meta = match &command_var.meta_data {
            None => {
                return Err(CommandError::MissingMetadata);
            },
            Some(m) => m,
        };
        let id = meta.id;
        proof {
            lemma_vocabulary_ids();
        }
        match self.comm_ids.get_key(id) {
            None => {
                proof {
                    if 1 <= id <= 15 {
                        assert(assigns(vocabulary(), vocabulary()[id - 1], id as int));
                    }
                }
                return Err(CommandError::UnsupportedId(id));
            },
            Some(_) => {},
        }
        assert(vocabulary()[9] == "mov_j"@);
        assert(vocabulary()[10] == "move"@);
        assert(vocabulary()[11] == "enable_robot"@);
        assert(vocabulary()[12] == "grab"@);
        assert(vocabulary()[13] == "release"@);
        let is_mov_j = id == self.id("mov_j");
        let is_move = id == self.id("move");
        if is_mov_j || is_move {
            let data = &command_var.data;
            if data.len() < 32 {
                return Err(CommandError::ShortPayload(id));
            }
            let x = read_word(data, 0);
            let y = read_word(data, 1);
            let z = read_word(data, 2);
            let w = read_word(data, 3);
            if is_mov_j {
                Ok(Command::MovJ(x, y, z, w))
            } else {
                Ok(Command::Move(x, y, z, w))
            }
        } else if id == self.id("grab") {
            Ok(Command::Grab)
        } else if id == self.id("release") {
            Ok(Command::Release)
        } else if id == self.id("enable_robot") {
            Ok(Command::EnableRobot)
        } else {
            Err(CommandError::UnhandledId(id))
        }
    }
}


/// Publishing is lossless: two snapshots that a data message can both describe
/// report the same positions, predicted grab positions, classes, hand pose and
/// holding reference.
pub proof fn lemma_snapshot_encoding_injective(vs: Seq<ProtoVariable>, p: Properties, q: Properties)
    requires
        encodes_snapshot(vs, p),
        encodes_snapshot(vs, q),
    ensures
        reported(p) == reported(q),
{
    lemma_object_encoding_injective(vs, 0, ID_CO1, p.co1, q.co1);
    lemma_object_encoding_injective(vs, 3, ID_CO2, p.co2, q.co2);
    lemma_object_encoding_injective(vs, 6, ID_CO3, p.co3, q.co3);
    let a = p.h.position;
    let b = q.h.position;
    lemma_move_words(a.x, a.y, a.z, a.w);
    lemma_move_words(b.x, b.y, b.z, b.w);
    assert(vec4_le(a) == move_le(a.x, a.y, a.z, a.w));
    assert(vec4_le(b) == move_le(b.x, b.y, b.z, b.w));
    lemma_word_of(holding_code(p.h.holding));
    lemma_word_of(holding_code(q.h.holding));
}

proof fn lemma_object_encoding_injective(vs: Seq<ProtoVariable>, at: int, e: i32, a: CameraObject, b: CameraObject)
    requires
        encodes_object(vs, at, e, a),
        encodes_object(vs, at, e, b),
    ensures
        a.position == b.position,
        a.predicted_grab_pos == b.predicted_grab_pos,
        a.class == b.class,
{
    lemma_vec2_words(a.position);
    lemma_vec2_words(b.position);
    let g = a.predicted_grab_pos;
    let h = b.predicted_grab_pos;
    lemma_move_words(g.x, g.y, g.z, g.w);
    lemma_move_words(h.x, h.y, h.z, h.w);
    assert(vec4_le(g) == move_le(g.x, g.y, g.z, g.w));
    assert(vec4_le(h) == move_le(h.x, h.y, h.z, h.w));
    lemma_word_of(a.class);
    lemma_word_of(b.class);
}

impl AeraProtocol {
    fn read_object(&self, vars: &[ProtoVariable], at: usize, slot: Slot) -> (r: Option<CameraObject>)
        requires
            self.wf(),
            at + 3 <= vars@.len(),
        ensures
            match r {
                Some(o) => encodes_object(vars@, at as int, slot_id(slot), o) && o.size == UNSET,
                None => forall|o: CameraObject| !encodes_object(vars@, at as int, slot_id(slot), o),
            },
    {
        proof {
            assert forall|o: CameraObject| encodes_object(vars@, at as int, slot_id(slot), o) implies
                vars@[at as int].data@.len() == 16 && vars@[at + 1].data@.len() == 32
                && vars@[at + 2].data@.len() == 8 by {
                lemma_vec2_words(o.position);
                let g = o.predicted_grab_pos;
                lemma_move_words(g.x, g.y, g.z, g.w);
                assert(vec4_le(g) == move_le(g.x, g.y, g.z, g.w));
                lemma_word_of(o.class);
            }
        }
        let entity = self.slot_id(slot);
        assert(vocabulary()[5] == "position"@);
        assert(vocabulary()[8] == "obj_type"@);
        assert(vocabulary()[14] == "predicted_grab_pos"@);
        let position = self.id("position");
        let predicted = self.id("predicted_grab_pos");
        let obj_type = self.id("obj_type");
        let v0 = &vars[at];
        let v1 = &vars[at + 1];
        let v2 = &vars[at + 2];
        if !matches_var(v0, entity, position, DataType::Int64, 2, "vec2", 16) {
            return None;
        }
        if !matches_var(v1, entity, predicted, DataType::Int64, 4, "vec4", 32) {
            return None;
        }
        if !matches_var(v2, entity, obj_type, DataType::Int64, 1, "set", 8) {
            return None;
        }
        let o = CameraObject {
            position: Vec2 { x: read_word(&v0.data, 0), y: read_word(&v0.data, 1) },
            predicted_grab_pos: Vec4 {
                x: read_word(&v1.data, 0),
                y: read_word(&v1.data, 1),
                z: read_word(&v1.data, 2),
                w: read_word(&v1.data, 3),
            },
            class: read_word(&v2.data, 0),
            size: UNSET,
        };
        proof {
            lemma_words2(v0.data@);
            lemma_words4(v1.data@);
            lemma_word1(v2.data@);
        }
        Some(o)
    }

    /// The snapshot that the first variables of a data message describe, with
    /// sizes unset; `None` when they describe none.
    pub fn snapshot_from_variables(&self, vars: &[ProtoVariable]) -> (r: Option<Properties>)
        requires
            self.wf(),
        ensures
            match r {
                Some(q) => encodes_snapshot(vars@, q) && q == reported(q),
                None => forall|p: Properties| !encodes_snapshot(vars@, p),
            },
    {
        if vars.len() < SNAPSHOT_VARS {
            return None;
        }
        let co1 = match self.read_object(vars, 0, Slot::Co1) {
            Some(o) => o,
            None => {
                assert forall|p: Properties| !encodes_snapshot(vars@, p) by {
                    assert(!encodes_object(vars@, 0, slot_id(Slot::Co1), p.co1));
                }
                return None;
            },
        };
        let co2 = match self.read_object(vars, 3, Slot::Co2) {
            Some(o) => o,
            None => {
                assert forall|p: Properties| !encodes_snapshot(vars@, p) by {
                    assert(!encodes_object(vars@, 3, slot_id(Slot::Co2), p.co2));
                }
                return None;
            },
        };
        let co3 = match self.read_object(vars, 6, Slot::Co3) {
            Some(o) => o,
            None => {
                assert forall|p: Properties| !encodes_snapshot(vars@, p) by {
                    assert(!encodes_object(vars@, 6, slot_id(Slot::Co3), p.co3));
                }
                return None;
            },
        };
        proof {
            assert forall|p: Properties| encodes_snapshot(vars@, p) implies vars@[9].data@.len() == 32
                && vars@[10].data@.len() == 8 && (word(vars@[10].data@, 0) == -1 || 3 <= word(
                vars@[10].data@,
                0,
            ) <= 5) by {
                let a = p.h.position;
                lemma_move_words(a.x, a.y, a.z, a.w);
                assert(vec4_le(a) == move_le(a.x, a.y, a.z, a.w));
                lemma_word_of(holding_code(p.h.holding));
            }
        }
        assert(vocabulary()[0] == "h"@);
        assert(vocabulary()[5] == "position"@);
        assert(vocabulary()[6] == "holding"@);
        let h = self.id("h");
        let position = self.id("position");
        let holding = self.id("holding");
        let vp = &vars[9];
        let vh = &vars[10];
        if !matches_var(vp, h, position, DataType::Int64, 4, "vec4", 32) {
            return None;
        }
        if !matches_var(vh, h, holding, DataType::CommunicationId, 1, "set", 8) {
            return None;
        }
        let code = read_word(&vh.data, 0);
        let held: Option<Slot> = if code == -1 {
            None
        } else if code == ID_CO1 as i64 {
            Some(Slot::Co1)
        } else if code == ID_CO2 as i64 {
            Some(Slot::Co2)
        } else if code == ID_CO3 as i64 {
            Some(Slot::Co3)
        } else {
            return None;
        };
        let hand = HandObject {
            position: Vec4 {
                x: read_word(&vp.data, 0),
                y: read_word(&vp.data, 1),
                z: read_word(&vp.data, 2),
                w: read_word(&vp.data, 3),
            },
            holding: held,
        };
        proof {
            lemma_words4(vp.data@);
            lemma_word1(vh.data@);
        }
        Some(Properties { co1, co2, co3, h: hand })
    }
}


/// The setup message sent once a connection is made: the name-to-id maps of
/// entities, object attributes and commands, and how each command is carried.
#[derive(Debug)]
pub struct SetupMessage {
    pub entities: Vec<(String, i32)>,
    pub objects: Vec<(String, i32)>,
    pub commands: Vec<(String, i32)>,
    pub command_descriptions: Vec<CommandDescription>,
}

/// `pairs` maps the vocabulary entries at positions `at`, in that order, to
/// their ids.
pub open spec fn lists_ids(pairs: Seq<(String, i32)>, at: Seq<int>) -> bool {
    &&& pairs.len() == at.len()
    &&& forall|i: int|
        0 <= i < pairs.len() ==> #[trigger] pairs[i].0@ == vocabulary()[at[i]] && pairs[i].1 == at[i]
            + 1
}

pub open spec fn entity_positions() -> Seq<int> {
    seq![0, 1, 2, 3, 4]
}

pub open spec fn object_positions() -> Seq<int> {
    seq![5, 6, 7, 8, 14]
}

pub open spec fn command_positions() -> Seq<int> {
    seq![9, 10, 12, 13, 11]
}

pub open spec fn describes_command(
    cd: CommandDescription,
    name: Seq<char>,
    id: i32,
    ty: DataType,
    dim: u64,
    hint: Seq<char>,
) -> bool {
    cd.name@ == name && describes(cd.description, ID_H, id, ty, dim, hint)
}

/// How each command travels: a move carries four `Int64` scalars, the others
/// only their id.
pub open spec fn describes_commands(cds: Seq<CommandDescription>) -> bool {
    &&& cds.len() == 5
    &&& describes_command(cds[0], "mov_j"@, ID_MOV_J, DataType::Int64, 4, "vec4"@)
    &&& describes_command(cds[1], "move"@, ID_MOVE, DataType::Int64, 4, "vec4"@)
    &&& describes_command(cds[2], "grab"@, ID_GRAB, DataType::CommunicationId, 0, ""@)
    &&& describes_command(cds[3], "release"@, ID_RELEASE, DataType::CommunicationId, 0, ""@)
    &&& describes_command(
        cds[4],
        "enable_robot"@,
        ID_ENABLE_ROBOT,
        DataType::CommunicationId,
        0,
        ""@,
    )
}

/// Kind of an inbound envelope.
#[derive(Clone, Copy, Debug, PartialEq, Eq, Structural)]
pub enum MessageType {
    Setup,
    Start,
    Data,
}

/// Why the planner link did not start.
#[derive(Clone, Copy, Debug, PartialEq, Eq, Structural)]
pub enum StartError {
    /// No message came before the read gave up.
    TimedOut,
    /// The first message was not a start message.
    WrongMessage,
}

/// Whether the first message from the planner, if any came, starts the run.
pub fn check_start_message(received: Option<MessageType>) -> (r: Result<(), StartError>)
    ensures
        r == match received {
            None => Err(StartError::TimedOut),
            Some(MessageType::Start) => Ok(()),
            Some(_) => Err::<(), StartError>(StartError::WrongMessage),
        },
{
    match received {
        None => Err(StartError::TimedOut),
        Some(MessageType::Start) => Ok(()),
        Some(_) => Err(StartError::WrongMessage),
    }
}

impl AeraProtocol {
    fn named_id(&self, name: &str) -> (r: (String, i32))
        requires
            self.wf(),
            vocabulary().contains(name@),
        ensures
            r.0@ == name@,
            forall|k: int| 0 <= k < 15 && #[trigger] vocabulary()[k] == name@ ==> r.1 == k + 1,
    {
        (name.to_owned(), self.id(name))
    }

    fn command_description(&self, name: &str, ty: DataType, dim: u64, hint: &str) -> (r:
        CommandDescription)
        requires
            self.wf(),
            vocabulary().contains(name@),
        ensures
            r.name@ == name@,
            forall|k: int|
                0 <= k < 15 && #[trigger] vocabulary()[k] == name@ ==> describes(
                    r.description,
                    ID_H,
                    (k + 1) as i32,
                    ty,
                    dim,
                    hint@,
                ),
    {
        assert(vocabulary()[0] == "h"@);
        let h = self.id("h");
        let id = self.id(name);
        CommandDescription { description: description(h, id, ty, dim, hint), name: name.to_owned() }
    }

    /// The descriptions of the commands that the planner may send.
    pub fn command_descriptions(&self) -> (r: Vec<CommandDescription>)
        requires
            self.wf(),
        ensures
            describes_commands(r@),
    {
        let ghost v = vocabulary();
        assert(v[9] == "mov_j"@);
        assert(v[10] == "move"@);
        assert(v[11] == "enable_robot"@);
        assert(v[12] == "grab"@);
        assert(v[13] == "release"@);
        let mut r: Vec<CommandDescription> = Vec::new();
        r.push(self.command_description("mov_j", DataType::Int64, 4, "vec4"));
        r.push(self.command_description("move", DataType::Int64, 4, "vec4"));
        r.push(self.command_description("grab", DataType::CommunicationId, 0, ""));
        r.push(self.command_description("release", DataType::CommunicationId, 0, ""));
        r.push(self.command_description("enable_robot", DataType::CommunicationId, 0, ""));
        r
    }

    /// The setup message that announces the schema to the planner.
    pub fn setup_message(&self) -> (r: SetupMessage)
        requires
            self.wf(),
        ensures
            lists_ids(r.entities@, entity_positions()),
            lists_ids(r.objects@, object_positions()),
            lists_ids(r.commands@, command_positions()),
            describes_commands(r.command_descriptions@),
    {
        let ghost v = vocabulary();
        assert(v[0] == "h"@);
        assert(v[1] == "c"@);
        assert(v[2] == "co1"@);
        assert(v[3] == "co2"@);
        assert(v[4] == "co3"@);
        assert(v[5] == "position"@);
        assert(v[6] == "holding"@);
        assert(v[7] == "size"@);
        assert(v[8] == "obj_type"@);
        assert(v[9] == "mov_j"@);
        assert(v[10] == "move"@);
        assert(v[11] == "enable_robot"@);
        assert(v[12] == "grab"@);
        assert(v[13] == "release"@);
        assert(v[14] == "predicted_grab_pos"@);
        let mut entities: Vec<(String, i32)> = Vec::new();
        entities.push(self.named_id("h"));
        entities.push(self.named_id("c"));
        entities.push(self.named_id("co1"));
        entities.push(self.named_id("co2"));
        entities.push(self.named_id("co3"));
        let mut objects: Vec<(String, i32)> = Vec::new();
        objects.push(self.named_id("position"));
        objects.push(self.named_id("holding"));
        objects.push(self.named_id("size"));
        objects.push(self.named_id("obj_type"));
        objects.push(self.named_id("predicted_grab_pos"));
        let mut commands: Vec<(String, i32)> = Vec::new();
        commands.push(self.named_id("mov_j"));
        commands.push(self.named_id("move"));
        commands.push(self.named_id("grab"));
        commands.push(self.named_id("release"));
        commands.push(self.named_id("enable_robot"));
        let command_descriptions = self.command_descriptions();
        SetupMessage { entities, objects, commands, command_descriptions }
    }
}

/// Position of a command's entry in the setup message's command descriptions.
pub open spec fn description_index(c: Command) -> int {
    match c {
        Command::MovJ(..) => 0,
        Command::Move(..) => 1,
        Command::Grab => 2,
        Command::Release => 3,
        Command::EnableRobot => 4,
    }
}

/// One schema: a command announced in a data message is described exactly as
/// the setup message described it.
pub proof fn lemma_echo_matches_setup(cds: Seq<CommandDescription>, v: ProtoVariable, c: Command)
    requires
        describes_commands(cds),
        encodes_command(v, c),
    ensures
        ({
            let d = cds[description_index(c)].description;
            let m = v.meta_data->0;
            &&& m.entity_id == d.entity_id
            &&& m.id == d.id
            &&& m.data_type == d.data_type
            &&& m.dimensions@ == d.dimensions@
            &&& m.opcode_string_handle@ == d.opcode_string_handle@
        }),
{
}

} // verus!
