//! VL6180X time-of-flight range sensor.
//!
//! Bring-up is a state machine: `pending` names the transfer the driver
//! needs next and `advance` takes the bus's reply to it. Identity is checked
//! first; the recommended configuration is loaded only when the sensor
//! reports a fresh power-on reset, after which the reset flag is cleared.
//! Steady-state operations return the single transfer they consist of.
use vstd::prelude::*;
use crate::frame::{read_frame, write_frame, read_image, write_image, BusReply, Transfer, TransportError};

verus! {

/// Model identifier the sensor reports in its identity register.
pub const MODEL_ID: u8 = 0xB4;

/// Factory-default 7-bit bus address of the sensor.
pub const DEFAULT_ADDRESS: u8 = 0x29;

/// Number of entries in the recommended configuration.
pub const CONFIG_LEN: usize = 38;

/// The sensor's public registers that the driver uses.
#[derive(Clone, Copy, Debug, PartialEq, Eq, Structural)]
pub enum Register {
    ModelId,
    FreshOutOfReset,
    InterruptClear,
    RangeStart,
    InterruptStatus,
    RangeValue,
}

/// The 16-bit number of a register.
pub open spec fn reg_number(reg: Register) -> u16 {
    match reg {
        Register::ModelId => 0x000,
        Register::InterruptClear => 0x015,
        Register::FreshOutOfReset => 0x016,
        Register::RangeStart => 0x018,
        Register::InterruptStatus => 0x04F,
        Register::RangeValue => 0x062,
    }
}

impl Register {
    /// The register's 16-bit number.
    pub fn addr(self) -> (r: u16)
        ensures
            r == reg_number(self),
    {
        match self {
            Register::ModelId => 0x000,
            Register::InterruptClear => 0x015,
            Register::FreshOutOfReset => 0x016,
            Register::RangeStart => 0x018,
            Register::InterruptStatus => 0x04F,
            Register::RangeValue => 0x062,
        }
    }
}

/// The recommended settings, as (register, value) pairs in the order in which
/// they must be written: first the mandatory private registers, then the
/// public registers for sample readiness, averaging period, gain, integration
/// time, temperature calibration, inter-measurement periods and interrupts.
pub open spec fn recommended_config() -> Seq<(u16, u8)> {
    seq![
        (0x0207u16, 0x01u8), (0x0208, 0x01), (0x0096, 0x00), (0x0097, 0xfd),
        (0x00e3, 0x01), (0x00e4, 0x03), (0x00e5, 0x02), (0x00e6, 0x01),
        (0x00e7, 0x03), (0x00f5, 0x02), (0x00d9, 0x05), (0x00db, 0xce),
        (0x00dc, 0x03), (0x00dd, 0xf8), (0x009f, 0x00), (0x00a3, 0x3c),
        (0x00b7, 0x00), (0x00bb, 0x3c), (0x00b2, 0x09), (0x00ca, 0x09),
        (0x0198, 0x01), (0x01b0, 0x17), (0x01ad, 0x00), (0x00ff, 0x05),
        (0x0100, 0x05), (0x0199, 0x05), (0x01a6, 0x1b), (0x01ac, 0x3e),
        (0x01a7, 0x1f), (0x0030, 0x00),
        (0x0011, 0x10), (0x010a, 0x30), (0x0031, 0xff), (0x0041, 0x63),
        (0x002e, 0x01), (0x001b, 0x09), (0x003e, 0x31), (0x0014, 0x24),
    ]
}

/// Entry `i` of the recommended configuration.
pub fn config_entry(i: usize) -> (r: (u16, u8))
    requires
        i < CONFIG_LEN,
    ensures
        r == recommended_config()[i as int],
{
    let table: Vec<(u16, u8)> = vec![
        (0x0207u16, 0x01u8), (0x0208, 0x01), (0x0096, 0x00), (0x0097, 0xfd),
        (0x00e3, 0x01), (0x00e4, 0x03), (0x00e5, 0x02), (0x00e6, 0x01),
        (0x00e7, 0x03), (0x00f5, 0x02), (0x00d9, 0x05), (0x00db, 0xce),
        (0x00dc, 0x03), (0x00dd, 0xf8), (0x009f, 0x00), (0x00a3, 0x3c),
        (0x00b7, 0x00), (0x00bb, 0x3c), (0x00b2, 0x09), (0x00ca, 0x09),
        (0x0198, 0x01), (0x01b0, 0x17), (0x01ad, 0x00), (0x00ff, 0x05),
        (0x0100, 0x05), (0x0199, 0x05), (0x01a6, 0x1b), (0x01ac, 0x3e),
        (0x01a7, 0x1f), (0x0030, 0x00),
        (0x0011, 0x10), (0x010a, 0x30), (0x0031, 0xff), (0x0041, 0x63),
        (0x002e, 0x01), (0x001b, 0x09), (0x003e, 0x31), (0x0014, 0x24),
    ];
    assert(table@ =~= recommended_config());
    table[i]
}

/// Why the sensor driver cannot be used.
#[derive(Clone, Copy, Debug, PartialEq, Eq)]
pub enum SensorError {
    /// The bus failed; the error is passed on unchanged.
    Transport(TransportError),
    /// The identity register held this value instead of `MODEL_ID`: a wiring
    /// or hardware fault, not worth retrying.
    UnexpectedIdentity(u8),
}

/// Where the driver stands in its bring-up.
#[derive(Clone, Copy, Debug, PartialEq, Eq)]
pub enum Stage {
    /// Reading the identity register.
    Identify,
    /// Reading the power-on-reset status register.
    CheckReset,
    /// Writing entry `i` of the recommended configuration.
    Configure(usize),
    /// Clearing the power-on-reset flag.
    ClearReset,
    /// Bring-up is over; measurements may be taken.
    Ready,
    /// Bring-up failed for good.
    Failed(SensorError),
}

/// The byte a read reply carries, or the transport error it stands for. A
/// reply without a byte is a failed read.
pub open spec fn read_outcome(reply: BusReply) -> Result<u8, TransportError> {
    match reply {
        BusReply::Read(v) => Ok(v),
        BusReply::Failed(e) => Err(e),
        BusReply::Written => Err(TransportError::Missing),
    }
}

/// The stage that follows `stage` once the bus has answered its transfer with
/// `reply`.
pub open spec fn next_stage(stage: Stage, reply: BusReply) -> Stage {
    match stage {
        Stage::Identify => match read_outcome(reply) {
            Ok(id) => if id == MODEL_ID {
                Stage::CheckReset
            } else {
                Stage::Failed(SensorError::UnexpectedIdentity(id))
            },
            Err(e) => Stage::Failed(SensorError::Transport(e)),
        },
        // A reset status other than 0x01 means "already configured".
        Stage::CheckReset => match read_outcome(reply) {
            Ok(status) => if status == 0x01 {
                Stage::Configure(0)
            } else {
                Stage::Ready
            },
            Err(e) => Stage::Failed(SensorError::Transport(e)),
        },
        Stage::Configure(i) => match reply {
            BusReply::Failed(e) => Stage::Failed(SensorError::Transport(e)),
            _ => if i + 1 < CONFIG_LEN {
                Stage::Configure((i + 1) as usize)
            } else {
                Stage::ClearReset
            },
        },
        Stage::ClearReset => match reply {
            BusReply::Failed(e) => Stage::Failed(SensorError::Transport(e)),
            _ => Stage::Ready,
        },
        Stage::Ready => Stage::Ready,
        Stage::Failed(e) => Stage::Failed(e),
    }
}

/// Well-formed stages: a configuration index stays inside the table.
pub open spec fn stage_wf(stage: Stage) -> bool {
    match stage {
        Stage::Configure(i) => i < CONFIG_LEN,
        _ => true,
    }
}

/// The transfer a stage waits on, as plain values, if it waits on one.
pub open spec fn pending_spec(address: u8, stage: Stage) -> Option<(u8, bool, Seq<u8>)> {
    match stage {
        Stage::Identify => Some((address, true, read_image(reg_number(Register::ModelId)))),
        Stage::CheckReset => Some((address, true, read_image(reg_number(Register::FreshOutOfReset)))),
        Stage::Configure(i) => Some(
            (address, false, write_image(recommended_config()[i as int].0, recommended_config()[i as int].1)),
        ),
        Stage::ClearReset => Some((address, false, write_image(reg_number(Register::FreshOutOfReset), 0x00))),
        Stage::Ready => None,
        Stage::Failed(_) => None,
    }
}

/// A VL6180X sensor at a fixed bus address.
pub struct VL6180X {
    address: u8,
    stage: Stage,
    identified: bool,
}

impl VL6180X {
    /// The bus address, fixed at construction.
    pub closed spec fn address_spec(&self) -> u8 {
        self.address
    }

    /// The bring-up stage.
    pub closed spec fn stage_spec(&self) -> Stage {
        self.stage
    }

    /// Whether the sensor has answered the identity check with `MODEL_ID`.
    pub closed spec fn identified_spec(&self) -> bool {
        self.identified
    }

    /// The driver's invariant: no stage after the identity check is reached
    /// without the identity having been verified.
    pub open spec fn wf(&self) -> bool {
        &&& stage_wf(self.stage_spec())
        &&& match self.stage_spec() {
            Stage::CheckReset | Stage::Configure(_) | Stage::ClearReset | Stage::Ready => self.identified_spec(),
            _ => true,
        }
    }

    /// A driver for a sensor at the default address, about to check identity.
    pub fn new() -> (r: Self)
        ensures
            r.wf(),
            r.address_spec() == DEFAULT_ADDRESS,
            r.stage_spec() == Stage::Identify,
            !r.identified_spec(),
    {
        Self::with_address(DEFAULT_ADDRESS)
    }

    /// A driver for a sensor at `address`, about to check identity.
    pub fn with_address(address: u8) -> (r: Self)
        ensures
            r.wf(),
            r.address_spec() == address,
            r.stage_spec() == Stage::Identify,
            !r.identified_spec(),
    {
        VL6180X { address, stage: Stage::Identify, identified: false }
    }

    /// The bus address.
    pub fn address(&self) -> (r: u8)
        ensures
            r == self.address_spec(),
    {
        self.address
    }

    /// The bring-up stage.
    pub fn stage(&self) -> (r: Stage)
        ensures
            r == self.stage_spec(),
    {
        self.stage
    }

    /// Restart initialization. A verified sensor reads the power-on-reset
    /// status again and loads the configuration only if it reports a fresh
    /// reset. A sensor whose identity has not been verified goes back to the
    /// identity check, except one whose identity was found wrong: that is
    /// fatal and stays as it is.
    pub fn init(&mut self)
        requires
            old(self).wf(),
        ensures
            final(self).wf(),
            final(self).address_spec() == old(self).address_spec(),
            final(self).identified_spec() == old(self).identified_spec(),
            final(self).stage_spec() == match old(self).stage_spec() {
                Stage::Failed(SensorError::UnexpectedIdentity(id)) => Stage::Failed(
                    SensorError::UnexpectedIdentity(id),
                ),
                _ => if old(self).identified_spec() {
                    Stage::CheckReset
                } else {
                    Stage::Identify
                },
            },
    {
        match self.stage {
            Stage::Failed(SensorError::UnexpectedIdentity(_)) => {},
            _ => {
                self.stage = if self.identified {
                    Stage::CheckReset
                } else {
                    Stage::Identify
                };
            },
        }
    }

    /// The transfer bring-up waits on, or `None` once it has finished or
    /// failed.
    pub fn pending(&self) -> (r: Option<Transfer>)
        requires
            self.wf(),
        ensures
            r.is_none() == pending_spec(self.address_spec(), self.stage_spec()).is_none(),
            r.is_some() ==> Some(r.unwrap()@) == pending_spec(self.address_spec(), self.stage_spec()),
    {
        match self.stage {
            Stage::Identify => Some(self.who_am_i()),
            Stage::CheckReset => Some(self.read_reg(Register::FreshOutOfReset)),
            Stage::Configure(i) => Some(self.load_recommended_config(i)),
            Stage::ClearReset => Some(self.write_reg(Register::FreshOutOfReset, 0x00)),
            Stage::Ready => None,
            Stage::Failed(_) => None,
        }
    }

    /// Take the bus's reply to the pending transfer and move on.
    pub fn advance(&mut self, reply: BusReply)
        requires
            old(self).wf(),
        ensures
            final(self).wf(),
            final(self).address_spec() == old(self).address_spec(),
            final(self).stage_spec() == next_stage(old(self).stage_spec(), reply),
            final(self).identified_spec() == (old(self).identified_spec() || (old(self).stage_spec()
                == Stage::Identify && final(self).stage_spec() == Stage::CheckReset)),
    {
        let next = match self.stage {
            Stage::Identify => match reply {
                BusReply::Read(id) => if id == MODEL_ID {
                    Stage::CheckReset
                } else {
                    Stage::Failed(SensorError::UnexpectedIdentity(id))
                },
                BusReply::Failed(e) => Stage::Failed(SensorError::Transport(e)),
                BusReply::Written => Stage::Failed(SensorError::Transport(TransportError::Missing)),
            },
            Stage::CheckReset => match reply {
                BusReply::Read(status) => if status == 0x01 {
                    Stage::Configure(0)
                } else {
                    Stage::Ready
                },
                BusReply::Failed(e) => Stage::Failed(SensorError::Transport(e)),
                BusReply::Written => Stage::Failed(SensorError::Transport(TransportError::Missing)),
            },
            Stage::Configure(i) => match reply {
                BusReply::Failed(e) => Stage::Failed(SensorError::Transport(e)),
                _ => if i + 1 < CONFIG_LEN {
                    Stage::Configure(i + 1)
                } else {
                    Stage::ClearReset
                },
            },
            Stage::ClearReset => match reply {
                BusReply::Failed(e) => Stage::Failed(SensorError::Transport(e)),
                _ => Stage::Ready,
            },
            Stage::Ready => Stage::Ready,
            Stage::Failed(e) => Stage::Failed(e),
        };
        if let Stage::CheckReset = next {
            if let Stage::Identify = self.stage {
                self.identified = true;
            }
        }
        self.stage = next;
    }

    /// The outcome of bring-up once `pending` has returned `None`: the
    /// driver is usable, or the reason it is not. It is `None` exactly while
    /// a transfer is pending.
    pub fn outcome(&self) -> (r: Option<Result<(), SensorError>>)
        ensures
            r.is_none() == pending_spec(self.address_spec(), self.stage_spec()).is_some(),
            r == match self.stage_spec() {
                Stage::Ready => Some(Ok::<(), SensorError>(())),
                Stage::Failed(e) => Some(Err::<(), SensorError>(e)),
                _ => None,
            },
    {
        match self.stage {
            Stage::Ready => Some(Ok(())),
            Stage::Failed(e) => Some(Err(e)),
            _ => None,
        }
    }

    /// Read of the identity register.
    fn who_am_i(&self) -> (t: Transfer)
        ensures
            t@ == (self.address_spec(), true, read_image(reg_number(Register::ModelId))),
    {
        self.read_reg(Register::ModelId)
    }

    /// Write of configuration entry `i`.
    fn load_recommended_config(&self, i: usize) -> (t: Transfer)
        requires
            i < CONFIG_LEN,
        ensures
            t@ == (self.address_spec(), false,
                write_image(recommended_config()[i as int].0, recommended_config()[i as int].1)),
    {
        let (reg, value) = config_entry(i);
        self.write_byte(reg, value)
    }

    /// Trigger one single-shot range measurement.
    pub fn start_ranging(&self) -> (t: Transfer)
        ensures
            t@ == (self.address_spec(), false, write_image(reg_number(Register::RangeStart), 0x01)),
    {
        self.write_reg(Register::RangeStart, 0x01)
    }

    /// Clear all pending interrupts.
    pub fn clear_int(&self) -> (t: Transfer)
        ensures
            t@ == (self.address_spec(), false, write_image(reg_number(Register::InterruptClear), 0x07)),
    {
        self.write_reg(Register::InterruptClear, 0x07)
    }

    /// Read the measured range in millimetres; 255 means no target.
    pub fn read_range(&self) -> (t: Transfer)
        ensures
            t@ == (self.address_spec(), true, read_image(reg_number(Register::RangeValue))),
    {
        self.read_reg(Register::RangeValue)
    }

    /// Read the interrupt status.
    pub fn int_status(&self) -> (t: Transfer)
        ensures
            t@ == (self.address_spec(), true, read_image(reg_number(Register::InterruptStatus))),
    {
        self.read_reg(Register::InterruptStatus)
    }

    /// Read the model identifier, expected to be `MODEL_ID`.
    pub fn get_model_id(&self) -> (t: Transfer)
        ensures
            t@ == (self.address_spec(), true, read_image(reg_number(Register::ModelId))),
    {
        self.read_reg(Register::ModelId)
    }

    /// Read one byte from a register.
    fn read_reg(&self, reg: Register) -> (t: Transfer)
        ensures
            t@ == (self.address_spec(), true, read_image(reg_number(reg))),
    {
        read_frame(self.address, reg.addr())
    }

    /// Write one byte to a register.
    fn write_reg(&self, reg: Register, value: u8) -> (t: Transfer)
        ensures
            t@ == (self.address_spec(), false, write_image(reg_number(reg), value)),
    {
        self.write_byte(reg.addr(), value)
    }

    /// Write one byte to a register given by number.
    fn write_byte(&self, reg: u16, byte: u8) -> (t: Transfer)
        ensures
            t@ == (self.address_spec(), false, write_image(reg, byte)),
    {
        write_frame(self.address, reg, byte)
    }
}

/// The configuration load starts exactly when the reset-status read reports
/// a fresh reset (0x01): no other stage or reply leads to its first write. A
/// reset check that reads any other value skips the load, and one whose read
/// fails ends bring-up with that transport error. Once the flag has been
/// cleared, a later `init` therefore loads nothing.
pub proof fn lemma_config_only_on_fresh_reset(stage: Stage, reply: BusReply)
    requires
        stage_wf(stage),
    ensures
        next_stage(stage, reply) == Stage::Configure(0) <==> (stage == Stage::CheckReset
            && read_outcome(reply) == Ok::<u8, TransportError>(0x01u8)),
        stage == Stage::CheckReset && (reply matches BusReply::Read(v) && v != 0x01)
            ==> next_stage(stage, reply) == Stage::Ready,
        stage == Stage::CheckReset ==> (read_outcome(reply) matches Err(e)
            ==> next_stage(stage, reply) == Stage::Failed(SensorError::Transport(e))),
{
}

/// After the last configuration write, the reset flag is cleared by writing
/// 0x00 to the reset-status register, and bring-up then finishes.
pub proof fn lemma_clear_after_config(address: u8, reply: BusReply)
    ensures
        !(reply is Failed) ==> next_stage(Stage::Configure((CONFIG_LEN - 1) as usize), reply) == Stage::ClearReset,
        pending_spec(address, Stage::ClearReset) == Some(
            (address, false, write_image(reg_number(Register::FreshOutOfReset), 0x00)),
        ),
        !(reply is Failed) ==> next_stage(Stage::ClearReset, reply) == Stage::Ready,
{
}

/// Every transfer the driver waits on during bring-up is framed with a
/// big-endian 16-bit register number: a write is exactly three bytes (high
/// address byte, low address byte, payload), a read is a two-byte address
/// write followed by a one-byte read.
pub proof fn lemma_pending_framing(address: u8, stage: Stage)
    requires
        stage_wf(stage),
    ensures
        pending_spec(address, stage) matches Some(t) ==> t.0 == address && (if t.1 {
            exists|reg: u16| t.2 == #[trigger] read_image(reg)
        } else {
            exists|reg: u16, v: u8| t.2 == #[trigger] write_image(reg, v)
        }),
{
    match stage {
        Stage::Identify => {
            assert(read_image(reg_number(Register::ModelId)) == read_image(reg_number(Register::ModelId)));
        },
        Stage::CheckReset => {
            assert(read_image(reg_number(Register::FreshOutOfReset)) == read_image(reg_number(Register::FreshOutOfReset)));
        },
        Stage::Configure(i) => {
            let (reg, v) = recommended_config()[i as int];
            assert(write_image(reg, v) == write_image(reg, v));
        },
        Stage::ClearReset => {
            assert(write_image(reg_number(Register::FreshOutOfReset), 0x00) == write_image(reg_number(Register::FreshOutOfReset), 0x00));
        },
        _ => {},
    }
}

/// A sensor reporting any identity other than `MODEL_ID` is rejected with
/// `UnexpectedIdentity` carrying that value, never accepted and never taken
/// for a bus failure; the expected identity moves on to the reset check.
pub proof fn lemma_identity_check(id: u8)
    ensures
        id != MODEL_ID ==> next_stage(Stage::Identify, BusReply::Read(id)) == Stage::Failed(
            SensorError::UnexpectedIdentity(id),
        ),
        id == MODEL_ID ==> next_stage(Stage::Identify, BusReply::Read(id)) == Stage::CheckReset,
{
}

} // verus!
