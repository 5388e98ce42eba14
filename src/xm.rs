//! The control table of XM-series servos (XM430-W350 and kin), and the
//! synchronised read of present position, velocity and current.
use vstd::prelude::*;
use crate::codec::{le_value, lemma_pow256_widths, read_le, Width};
use crate::error::Error;
use crate::register::{Access, ReadRequest, Register, RegisterTable, WriteRequest};

verus! {

/// Registers of the XM control table that can only be read: there is no way
/// to write one.
#[derive(Clone, Copy, Debug, PartialEq, Eq, Structural)]
pub enum ReadOnlyRegister {
    ModelNumber,
    FirmwareVersion,
    RealtimeTick,
    Moving,
    MovingStatus,
    PresentPwm,
    PresentCurrent,
    PresentVelocity,
    PresentPosition,
    VelocityTrajectory,
    PositionTrajectory,
    PresentInputVoltage,
    PresentTemperature,
}

impl ReadOnlyRegister {
    /// Where the register lies in the control table, and how it is stored.
    pub open spec fn spec_register(self) -> Register {
        match self {
            ReadOnlyRegister::ModelNumber => Register::spec_new("model_number", 0, Width::Two, false, Access::ReadOnly),
            ReadOnlyRegister::FirmwareVersion => Register::spec_new("firmware_version", 6, Width::One, false, Access::ReadOnly),
            ReadOnlyRegister::RealtimeTick => Register::spec_new("realtime_tick", 120, Width::Two, false, Access::ReadOnly),
            ReadOnlyRegister::Moving => Register::spec_new("moving", 122, Width::One, false, Access::ReadOnly),
            ReadOnlyRegister::MovingStatus => Register::spec_new("moving_status", 123, Width::One, false, Access::ReadOnly),
            ReadOnlyRegister::PresentPwm => Register::spec_new("present_pwm", 124, Width::Two, false, Access::ReadOnly),
            ReadOnlyRegister::PresentCurrent => Register::spec_new("present_current", 126, Width::Two, false, Access::ReadOnly),
            ReadOnlyRegister::PresentVelocity => Register::spec_new("present_velocity", 128, Width::Four, false, Access::ReadOnly),
            ReadOnlyRegister::PresentPosition => Register::spec_new("present_position", 132, Width::Four, false, Access::ReadOnly),
            ReadOnlyRegister::VelocityTrajectory => Register::spec_new("velocity_trajectory", 136, Width::Four, false, Access::ReadOnly),
            ReadOnlyRegister::PositionTrajectory => Register::spec_new("position_trajectory", 140, Width::Four, false, Access::ReadOnly),
            ReadOnlyRegister::PresentInputVoltage => Register::spec_new("present_input_voltage", 144, Width::Two, false, Access::ReadOnly),
            ReadOnlyRegister::PresentTemperature => Register::spec_new("present_temperature", 146, Width::One, false, Access::ReadOnly),
        }
    }

    /// The descriptor of this register.
    pub fn register(self) -> (r: Register)
        ensures
            r == self.spec_register(),
    {
        match self {
            ReadOnlyRegister::ModelNumber => Register::new("model_number", 0, Width::Two, false, Access::ReadOnly),
            ReadOnlyRegister::FirmwareVersion => Register::new("firmware_version", 6, Width::One, false, Access::ReadOnly),
            ReadOnlyRegister::RealtimeTick => Register::new("realtime_tick", 120, Width::Two, false, Access::ReadOnly),
            ReadOnlyRegister::Moving => Register::new("moving", 122, Width::One, false, Access::ReadOnly),
            ReadOnlyRegister::MovingStatus => Register::new("moving_status", 123, Width::One, false, Access::ReadOnly),
            ReadOnlyRegister::PresentPwm => Register::new("present_pwm", 124, Width::Two, false, Access::ReadOnly),
            ReadOnlyRegister::PresentCurrent => Register::new("present_current", 126, Width::Two, false, Access::ReadOnly),
            ReadOnlyRegister::PresentVelocity => Register::new("present_velocity", 128, Width::Four, false, Access::ReadOnly),
            ReadOnlyRegister::PresentPosition => Register::new("present_position", 132, Width::Four, false, Access::ReadOnly),
            ReadOnlyRegister::VelocityTrajectory => Register::new("velocity_trajectory", 136, Width::Four, false, Access::ReadOnly),
            ReadOnlyRegister::PositionTrajectory => Register::new("position_trajectory", 140, Width::Four, false, Access::ReadOnly),
            ReadOnlyRegister::PresentInputVoltage => Register::new("present_input_voltage", 144, Width::Two, false, Access::ReadOnly),
            ReadOnlyRegister::PresentTemperature => Register::new("present_temperature", 146, Width::One, false, Access::ReadOnly),
        }
    }

    /// The request that reads this register of servo `id`.
    pub fn read_request(self, id: u8) -> (r: ReadRequest)
        ensures
            r.id == id,
            r.address == self.spec_register().address,
            r.length == self.spec_register().encoding.width.spec_bytes(),
    {
        self.register().read_request(id)
    }

    /// Decodes the transport's reply to `read_request`.
    pub fn read_reply(self, reply: Result<Vec<u8>, String>) -> (r: Result<i64, Error>)
        ensures
            r == self.spec_register().decoded(reply),
    {
        self.register().read_reply(reply)
    }
}

/// Registers of the XM control table that can be read and written.
#[derive(Clone, Copy, Debug, PartialEq, Eq, Structural)]
pub enum ReadWriteRegister {
    Id,
    BaudRate,
    ReturnDelayTime,
    DriveMode,
    OperatingMode,
    SecondaryShadowId,
    ProtocolType,
    HomingOffset,
    MovingThreshold,
    TemperatureLimit,
    MaxVoltageLimit,
    MinVoltageLimit,
    AccelerationLimit,
    VelocityLimit,
    MaxPositionLimit,
    MinPositionLimit,
    Shutdown,
    TorqueEnable,
    Led,
    StatusReturnLevel,
    RegisteredInstruction,
    HardwareErrorStatus,
    VelocityIGain,
    VelocityPGain,
    PositionDGain,
    PositionIGain,
    PositionPGain,
    Feedforward2ndGain,
    Feedforward1stGain,
    BusWatchdog,
    GoalPwm,
    GoalVelocity,
    ProfileAcceleration,
    ProfileVelocity,
    GoalPosition,
}

impl ReadWriteRegister {
    /// Where the register lies in the control table, and how it is stored.
    pub open spec fn spec_register(self) -> Register {
        match self {
            ReadWriteRegister::Id => Register::spec_new("id", 7, Width::One, false, Access::ReadWrite),
            ReadWriteRegister::BaudRate => Register::spec_new("baud_rate", 8, Width::One, false, Access::ReadWrite),
            ReadWriteRegister::ReturnDelayTime => Register::spec_new("return_delay_time", 9, Width::One, false, Access::ReadWrite),
            ReadWriteRegister::DriveMode => Register::spec_new("drive_mode", 10, Width::One, false, Access::ReadWrite),
            ReadWriteRegister::OperatingMode => Register::spec_new("operating_mode", 11, Width::One, false, Access::ReadWrite),
            ReadWriteRegister::SecondaryShadowId => Register::spec_new("secondary_shadow_id", 12, Width::One, false, Access::ReadWrite),
            ReadWriteRegister::ProtocolType => Register::spec_new("protocol_type", 13, Width::One, false, Access::ReadWrite),
            ReadWriteRegister::HomingOffset => Register::spec_new("homing_offset", 20, Width::Four, true, Access::ReadWrite),
            ReadWriteRegister::MovingThreshold => Register::spec_new("moving_threshold", 24, Width::Four, false, Access::ReadWrite),
            ReadWriteRegister::TemperatureLimit => Register::spec_new("temperature_limit", 31, Width::One, false, Access::ReadWrite),
            ReadWriteRegister::MaxVoltageLimit => Register::spec_new("max_voltage_limit", 32, Width::Two, false, Access::ReadWrite),
            ReadWriteRegister::MinVoltageLimit => Register::spec_new("min_voltage_limit", 34, Width::Two, false, Access::ReadWrite),
            ReadWriteRegister::AccelerationLimit => Register::spec_new("acceleration_limit", 40, Width::Four, false, Access::ReadWrite),
            ReadWriteRegister::VelocityLimit => Register::spec_new("velocity_limit", 44, Width::Four, false, Access::ReadWrite),
            ReadWriteRegister::MaxPositionLimit => Register::spec_new("max_position_limit", 48, Width::Four, false, Access::ReadWrite),
            ReadWriteRegister::MinPositionLimit => Register::spec_new("min_position_limit", 52, Width::Four, false, Access::ReadWrite),
            ReadWriteRegister::Shutdown => Register::spec_new("shutdown", 63, Width::One, false, Access::ReadWrite),
            ReadWriteRegister::TorqueEnable => Register::spec_new("torque_enable", 64, Width::One, false, Access::ReadWrite),
            ReadWriteRegister::Led => Register::spec_new("led", 65, Width::One, false, Access::ReadWrite),
            ReadWriteRegister::StatusReturnLevel => Register::spec_new("status_return_level", 68, Width::One, false, Access::ReadWrite),
            ReadWriteRegister::RegisteredInstruction => Register::spec_new("registered_instruction", 69, Width::One, false, Access::ReadWrite),
            ReadWriteRegister::HardwareErrorStatus => Register::spec_new("hardware_error_status", 70, Width::One, false, Access::ReadWrite),
            ReadWriteRegister::VelocityIGain => Register::spec_new("velocity_i_gain", 76, Width::Two, false, Access::ReadWrite),
            ReadWriteRegister::VelocityPGain => Register::spec_new("velocity_p_gain", 78, Width::Two, false, Access::ReadWrite),
            ReadWriteRegister::PositionDGain => Register::spec_new("position_d_gain", 80, Width::Two, false, Access::ReadWrite),
            ReadWriteRegister::PositionIGain => Register::spec_new("position_i_gain", 82, Width::Two, false, Access::ReadWrite),
            ReadWriteRegister::PositionPGain => Register::spec_new("position_p_gain", 84, Width::Two, false, Access::ReadWrite),
            ReadWriteRegister::Feedforward2ndGain => Register::spec_new("feedforward_2nd_gain", 88, Width::Two, false, Access::ReadWrite),
            ReadWriteRegister::Feedforward1stGain => Register::spec_new("feedforward_1st_gain", 90, Width::Two, false, Access::ReadWrite),
            ReadWriteRegister::BusWatchdog => Register::spec_new("bus_watchdog", 98, Width::One, false, Access::ReadWrite),
            ReadWriteRegister::GoalPwm => Register::spec_new("goal_pwm", 100, Width::Two, false, Access::ReadWrite),
            ReadWriteRegister::GoalVelocity => Register::spec_new("goal_velocity", 104, Width::Four, false, Access::ReadWrite),
            ReadWriteRegister::ProfileAcceleration => Register::spec_new("profile_acceleration", 108, Width::Four, false, Access::ReadWrite),
            ReadWriteRegister::ProfileVelocity => Register::spec_new("profile_velocity", 112, Width::Four, false, Access::ReadWrite),
            ReadWriteRegister::GoalPosition => Register::spec_new("goal_position", 116, Width::Four, false, Access::ReadWrite),
        }
    }

    /// The descriptor of this register.
    pub fn register(self) -> (r: Register)
        ensures
            r == self.spec_register(),
    {
        match self {
            ReadWriteRegister::Id => Register::new("id", 7, Width::One, false, Access::ReadWrite),
            ReadWriteRegister::BaudRate => Register::new("baud_rate", 8, Width::One, false, Access::ReadWrite),
            ReadWriteRegister::ReturnDelayTime => Register::new("return_delay_time", 9, Width::One, false, Access::ReadWrite),
            ReadWriteRegister::DriveMode => Register::new("drive_mode", 10, Width::One, false, Access::ReadWrite),
            ReadWriteRegister::OperatingMode => Register::new("operating_mode", 11, Width::One, false, Access::ReadWrite),
            ReadWriteRegister::SecondaryShadowId => Register::new("secondary_shadow_id", 12, Width::One, false, Access::ReadWrite),
            ReadWriteRegister::ProtocolType => Register::new("protocol_type", 13, Width::One, false, Access::ReadWrite),
            ReadWriteRegister::HomingOffset => Register::new("homing_offset", 20, Width::Four, true, Access::ReadWrite),
            ReadWriteRegister::MovingThreshold => Register::new("moving_threshold", 24, Width::Four, false, Access::ReadWrite),
            ReadWriteRegister::TemperatureLimit => Register::new("temperature_limit", 31, Width::One, false, Access::ReadWrite),
            ReadWriteRegister::MaxVoltageLimit => Register::new("max_voltage_limit", 32, Width::Two, false, Access::ReadWrite),
            ReadWriteRegister::MinVoltageLimit => Register::new("min_voltage_limit", 34, Width::Two, false, Access::ReadWrite),
            ReadWriteRegister::AccelerationLimit => Register::new("acceleration_limit", 40, Width::Four, false, Access::ReadWrite),
            ReadWriteRegister::VelocityLimit => Register::new("velocity_limit", 44, Width::Four, false, Access::ReadWrite),
            ReadWriteRegister::MaxPositionLimit => Register::new("max_position_limit", 48, Width::Four, false, Access::ReadWrite),
            ReadWriteRegister::MinPositionLimit => Register::new("min_position_limit", 52, Width::Four, false, Access::ReadWrite),
            ReadWriteRegister::Shutdown => Register::new("shutdown", 63, Width::One, false, Access::ReadWrite),
            ReadWriteRegister::TorqueEnable => Register::new("torque_enable", 64, Width::One, false, Access::ReadWrite),
            ReadWriteRegister::Led => Register::new("led", 65, Width::One, false, Access::ReadWrite),
            ReadWriteRegister::StatusReturnLevel => Register::new("status_return_level", 68, Width::One, false, Access::ReadWrite),
            ReadWriteRegister::RegisteredInstruction => Register::new("registered_instruction", 69, Width::One, false, Access::ReadWrite),
            ReadWriteRegister::HardwareErrorStatus => Register::new("hardware_error_status", 70, Width::One, false, Access::ReadWrite),
            ReadWriteRegister::VelocityIGain => Register::new("velocity_i_gain", 76, Width::Two, false, Access::ReadWrite),
            ReadWriteRegister::VelocityPGain => Register::new("velocity_p_gain", 78, Width::Two, false, Access::ReadWrite),
            ReadWriteRegister::PositionDGain => Register::new("position_d_gain", 80, Width::Two, false, Access::ReadWrite),
            ReadWriteRegister::PositionIGain => Register::new("position_i_gain", 82, Width::Two, false, Access::ReadWrite),
            ReadWriteRegister::PositionPGain => Register::new("position_p_gain", 84, Width::Two, false, Access::ReadWrite),
            ReadWriteRegister::Feedforward2ndGain => Register::new("feedforward_2nd_gain", 88, Width::Two, false, Access::ReadWrite),
            ReadWriteRegister::Feedforward1stGain => Register::new("feedforward_1st_gain", 90, Width::Two, false, Access::ReadWrite),
            ReadWriteRegister::BusWatchdog => Register::new("bus_watchdog", 98, Width::One, false, Access::ReadWrite),
            ReadWriteRegister::GoalPwm => Register::new("goal_pwm", 100, Width::Two, false, Access::ReadWrite),
            ReadWriteRegister::GoalVelocity => Register::new("goal_velocity", 104, Width::Four, false, Access::ReadWrite),
            ReadWriteRegister::ProfileAcceleration => Register::new("profile_acceleration", 108, Width::Four, false, Access::ReadWrite),
            ReadWriteRegister::ProfileVelocity => Register::new("profile_velocity", 112, Width::Four, false, Access::ReadWrite),
            ReadWriteRegister::GoalPosition => Register::new("goal_position", 116, Width::Four, false, Access::ReadWrite),
        }
    }

    /// The request that reads this register of servo `id`.
    pub fn read_request(self, id: u8) -> (r: ReadRequest)
        ensures
            r.id == id,
            r.address == self.spec_register().address,
            r.length == self.spec_register().encoding.width.spec_bytes(),
    {
        self.register().read_request(id)
    }

    /// Decodes the transport's reply to `read_request`.
    pub fn read_reply(self, reply: Result<Vec<u8>, String>) -> (r: Result<i64, Error>)
        ensures
            r == self.spec_register().decoded(reply),
    {
        self.register().read_reply(reply)
    }

    /// The request that stores `value` in this register of servo `id`; a
    /// value the register cannot hold is a format error, and nothing is sent.
    pub fn write_request(self, id: u8, value: i64) -> (r: Result<WriteRequest, Error>)
        ensures
            r is Ok <==> self.spec_register().encoding.represents(value as int),
            r matches Ok(w) ==> w.id == id && w.address == self.spec_register().address
                && w.data@ == self.spec_register().encoding.bytes_of(value as int),
            r matches Err(e) ==> e == Error::Format,
    {
        self.register().write_request(id, value)
    }
}

/// No two read-only registers overlap.
pub proof fn lemma_read_only_disjoint(a: ReadOnlyRegister, b: ReadOnlyRegister)
    requires
        a != b,
    ensures
        a.spec_register().disjoint(b.spec_register()),
{
}

/// No two read-write registers overlap.
pub proof fn lemma_read_write_disjoint(a: ReadWriteRegister, b: ReadWriteRegister)
    requires
        a != b,
    ensures
        a.spec_register().disjoint(b.spec_register()),
{
}

/// No read-only register overlaps a read-write one.
pub proof fn lemma_access_classes_disjoint(a: ReadOnlyRegister, b: ReadWriteRegister)
    ensures
        a.spec_register().disjoint(b.spec_register()),
{
}

/// Every register of the XM control table, in address order.
pub open spec fn xm_registers() -> Seq<Register> {
    seq![
        ReadOnlyRegister::ModelNumber.spec_register(),
        ReadOnlyRegister::FirmwareVersion.spec_register(),
        ReadWriteRegister::Id.spec_register(),
        ReadWriteRegister::BaudRate.spec_register(),
        ReadWriteRegister::ReturnDelayTime.spec_register(),
        ReadWriteRegister::DriveMode.spec_register(),
        ReadWriteRegister::OperatingMode.spec_register(),
        ReadWriteRegister::SecondaryShadowId.spec_register(),
        ReadWriteRegister::ProtocolType.spec_register(),
        ReadWriteRegister::HomingOffset.spec_register(),
        ReadWriteRegister::MovingThreshold.spec_register(),
        ReadWriteRegister::TemperatureLimit.spec_register(),
        ReadWriteRegister::MaxVoltageLimit.spec_register(),
        ReadWriteRegister::MinVoltageLimit.spec_register(),
        ReadWriteRegister::AccelerationLimit.spec_register(),
        ReadWriteRegister::VelocityLimit.spec_register(),
        ReadWriteRegister::MaxPositionLimit.spec_register(),
        ReadWriteRegister::MinPositionLimit.spec_register(),
        ReadWriteRegister::Shutdown.spec_register(),
        ReadWriteRegister::TorqueEnable.spec_register(),
        ReadWriteRegister::Led.spec_register(),
        ReadWriteRegister::StatusReturnLevel.spec_register(),
        ReadWriteRegister::RegisteredInstruction.spec_register(),
        ReadWriteRegister::HardwareErrorStatus.spec_register(),
        ReadWriteRegister::VelocityIGain.spec_register(),
        ReadWriteRegister::VelocityPGain.spec_register(),
        ReadWriteRegister::PositionDGain.spec_register(),
        ReadWriteRegister::PositionIGain.spec_register(),
        ReadWriteRegister::PositionPGain.spec_register(),
        ReadWriteRegister::Feedforward2ndGain.spec_register(),
        ReadWriteRegister::Feedforward1stGain.spec_register(),
        ReadWriteRegister::BusWatchdog.spec_register(),
        ReadWriteRegister::GoalPwm.spec_register(),
        ReadWriteRegister::GoalVelocity.spec_register(),
        ReadWriteRegister::ProfileAcceleration.spec_register(),
        ReadWriteRegister::ProfileVelocity.spec_register(),
        ReadWriteRegister::GoalPosition.spec_register(),
        ReadOnlyRegister::RealtimeTick.spec_register(),
        ReadOnlyRegister::Moving.spec_register(),
        ReadOnlyRegister::MovingStatus.spec_register(),
        ReadOnlyRegister::PresentPwm.spec_register(),
        ReadOnlyRegister::PresentCurrent.spec_register(),
        ReadOnlyRegister::PresentVelocity.spec_register(),
        ReadOnlyRegister::PresentPosition.spec_register(),
        ReadOnlyRegister::VelocityTrajectory.spec_register(),
        ReadOnlyRegister::PositionTrajectory.spec_register(),
        ReadOnlyRegister::PresentInputVoltage.spec_register(),
        ReadOnlyRegister::PresentTemperature.spec_register(),
    ]
}

/// The table of every register of the XM control table, in address order.
pub fn xm_table() -> (t: RegisterTable)
    ensures
        t.wf(),
        t@ == xm_registers(),
{
    let mut t = RegisterTable::new();
    t.push(ReadOnlyRegister::ModelNumber.register());
    t.push(ReadOnlyRegister::FirmwareVersion.register());
    t.push(ReadWriteRegister::Id.register());
    t.push(ReadWriteRegister::BaudRate.register());
    t.push(ReadWriteRegister::ReturnDelayTime.register());
    t.push(ReadWriteRegister::DriveMode.register());
    t.push(ReadWriteRegister::OperatingMode.register());
    t.push(ReadWriteRegister::SecondaryShadowId.register());
    t.push(ReadWriteRegister::ProtocolType.register());
    t.push(ReadWriteRegister::HomingOffset.register());
    t.push(ReadWriteRegister::MovingThreshold.register());
    t.push(ReadWriteRegister::TemperatureLimit.register());
    t.push(ReadWriteRegister::MaxVoltageLimit.register());
    t.push(ReadWriteRegister::MinVoltageLimit.register());
    t.push(ReadWriteRegister::AccelerationLimit.register());
    t.push(ReadWriteRegister::VelocityLimit.register());
    t.push(ReadWriteRegister::MaxPositionLimit.register());
    t.push(ReadWriteRegister::MinPositionLimit.register());
    t.push(ReadWriteRegister::Shutdown.register());
    t.push(ReadWriteRegister::TorqueEnable.register());
    t.push(ReadWriteRegister::Led.register());
    t.push(ReadWriteRegister::StatusReturnLevel.register());
    t.push(ReadWriteRegister::RegisteredInstruction.register());
    t.push(ReadWriteRegister::HardwareErrorStatus.register());
    t.push(ReadWriteRegister::VelocityIGain.register());
    t.push(ReadWriteRegister::VelocityPGain.register());
    t.push(ReadWriteRegister::PositionDGain.register());
    t.push(ReadWriteRegister::PositionIGain.register());
    t.push(ReadWriteRegister::PositionPGain.register());
    t.push(ReadWriteRegister::Feedforward2ndGain.register());
    t.push(ReadWriteRegister::Feedforward1stGain.register());
    t.push(ReadWriteRegister::BusWatchdog.register());
    t.push(ReadWriteRegister::GoalPwm.register());
    t.push(ReadWriteRegister::GoalVelocity.register());
    t.push(ReadWriteRegister::ProfileAcceleration.register());
    t.push(ReadWriteRegister::ProfileVelocity.register());
    t.push(ReadWriteRegister::GoalPosition.register());
    t.push(ReadOnlyRegister::RealtimeTick.register());
    t.push(ReadOnlyRegister::Moving.register());
    t.push(ReadOnlyRegister::MovingStatus.register());
    t.push(ReadOnlyRegister::PresentPwm.register());
    t.push(ReadOnlyRegister::PresentCurrent.register());
    t.push(ReadOnlyRegister::PresentVelocity.register());
    t.push(ReadOnlyRegister::PresentPosition.register());
    t.push(ReadOnlyRegister::VelocityTrajectory.register());
    t.push(ReadOnlyRegister::PositionTrajectory.register());
    t.push(ReadOnlyRegister::PresentInputVoltage.register());
    t.push(ReadOnlyRegister::PresentTemperature.register());
    t
}

/// Bytes per servo in a synchronised telemetry read: present current (two
/// bytes), present velocity (four) and present position (four), as they lie
/// in the control table from address 126 on.
pub const TELEMETRY_BLOCK_LEN: usize = 10;

/// A synchronised read of `length` bytes at `address` from each servo of
/// `ids`, in one bus transaction.
#[derive(Clone, Debug, PartialEq, Eq)]
pub struct SyncReadRequest {
    pub ids: Vec<u8>,
    pub address: u16,
    pub length: usize,
}

/// (present position, present velocity, present current) decoded from one
/// telemetry block: the reverse of the order the fields lie in.
pub open spec fn telemetry_of(block: Seq<u8>) -> (u32, u32, u16) {
    (
        le_value(block.subrange(6, 10)) as u32,
        le_value(block.subrange(2, 6)) as u32,
        le_value(block.subrange(0, 2)) as u16,
    )
}

/// All blocks are telemetry blocks, one per requested servo.
pub open spec fn telemetry_blocks_ok(ids: Seq<u8>, blocks: Seq<Vec<u8>>) -> bool {
    &&& blocks.len() == ids.len()
    &&& forall|i: int| 0 <= i < blocks.len() ==> #[trigger] blocks[i]@.len() == TELEMETRY_BLOCK_LEN
}

/// The request that reads present current, velocity and position of each
/// servo of `ids` in one transaction. Repeated ids are kept: each occurrence
/// gets a block of its own in the reply.
pub fn present_position_speed_load_request(ids: &[u8]) -> (r: SyncReadRequest)
    ensures
        r.ids@ == ids@,
        r.address == ReadOnlyRegister::PresentCurrent.spec_register().address,
        r.length == TELEMETRY_BLOCK_LEN,
{
    let address = ReadOnlyRegister::PresentCurrent.register().address;
    let mut copy: Vec<u8> = Vec::new();
    let mut i: usize = 0;
    while i < ids.len()
        invariant
            i <= ids@.len(),
            copy@ == ids@.subrange(0, i as int),
        decreases ids@.len() - i,
    {
        copy.push(ids[i]);
        i = i + 1;
    }
    assert(ids@.subrange(0, ids@.len() as int) == ids@);
    SyncReadRequest { ids: copy, address, length: TELEMETRY_BLOCK_LEN }
}

/// Decodes the transport's reply to `present_position_speed_load_request`:
/// one (position, velocity, current) tuple per requested id, in request
/// order. The transport's error passes through; a reply with a block count
/// other than the number of ids, or any block not exactly ten bytes long,
/// fails the whole batch with a format error.
pub fn sync_read_present_position_speed_load(
    ids: &[u8],
    reply: Result<Vec<Vec<u8>>, String>,
) -> (r: Result<Vec<(u32, u32, u16)>, Error>)
    ensures
        reply matches Err(m) ==> r == Err::<Vec<(u32, u32, u16)>, Error>(Error::Transport(m)),
        reply matches Ok(blocks) ==> (r is Ok <==> telemetry_blocks_ok(ids@, blocks@)),
        reply matches Ok(blocks) ==> (r matches Err(e) ==> e == Error::Format),
        r matches Ok(v) ==> reply matches Ok(blocks) && v@.len() == ids@.len() && forall|i: int|
            0 <= i < v@.len() ==> #[trigger] v@[i] == telemetry_of(blocks@[i]@),
{
    let blocks = match reply {
        Err(m) => return Err(Error::Transport(m)),
        Ok(blocks) => blocks,
    };
    if blocks.len() != ids.len() {
        return Err(Error::Format);
    }
    let mut out: Vec<(u32, u32, u16)> = Vec::new();
    let mut i: usize = 0;
    while i < blocks.len()
        invariant
            reply == Ok::<Vec<Vec<u8>>, String>(blocks),
            i <= blocks@.len(),
            blocks@.len() == ids@.len(),
            forall|k: int| 0 <= k < i ==> #[trigger] blocks@[k]@.len() == TELEMETRY_BLOCK_LEN,
            out@.len() == i,
            forall|k: int| 0 <= k < i ==> #[trigger] out@[k] == telemetry_of(blocks@[k]@),
        decreases blocks@.len() - i,
    {
        let block = &blocks[i];
        if block.len() != TELEMETRY_BLOCK_LEN {
            return Err(Error::Format);
        }
        proof {
            lemma_pow256_widths();
        }
        let position = read_le(block.as_slice(), 6, 4) as u32;
        let velocity = read_le(block.as_slice(), 2, 4) as u32;
        let current = read_le(block.as_slice(), 0, 2) as u16;
        out.push((position, velocity, current));
        i = i + 1;
    }
    Ok(out)
}

} // verus!
