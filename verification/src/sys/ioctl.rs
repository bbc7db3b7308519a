//! The ioctl protocol of the `tuxedo_io` kernel driver: which operations
//! exist, what each one transfers, and how its request code is encoded.

use vstd::prelude::*;

verus! {

/// Type byte of the operations that concern the driver as a whole.
pub const MAGIC: u8 = 0xec;

/// Type byte of the operations that read from the embedded controller.
pub const MAGIC_READ: u8 = MAGIC + 3;

/// Type byte of the operations that write to the embedded controller.
pub const MAGIC_WRITE: u8 = MAGIC + 4;

/// The bits of an argument's size that a request code has room for.
pub const SIZE_MASK: u32 = 0x3fff;

/// The three shapes a transfer can take.
#[derive(Clone, Copy, Debug, PartialEq, Eq)]
pub enum Shape {
    /// The driver writes one integer into storage of the caller.
    ReadInt,
    /// The caller hands the driver one integer.
    WriteInt,
    /// Nothing is transferred either way.
    Signal,
}

/// The operations the driver understands.
#[derive(Clone, Copy, Debug, PartialEq, Eq)]
pub enum Op {
    HwCheck,
    ReadFanSpeed1,
    ReadFanSpeed2,
    ReadFanTemp1,
    ReadFanTemp2,
    ReadMode,
    ReadModeEnable,
    ReadFansOffAvailable,
    ReadFansMinSpeed,
    ReadTdp0,
    ReadTdp1,
    ReadTdp2,
    ReadTdp0Min,
    ReadTdp1Min,
    ReadTdp2Min,
    ReadTdp0Max,
    ReadTdp1Max,
    ReadTdp2Max,
    WriteFanSpeed1,
    WriteFanSpeed2,
    WriteMode,
    WriteModeEnable,
    WriteFanAuto,
    WriteTdp0,
    WriteTdp1,
    WriteTdp2,
    WritePerfProfile,
}

/// One ioctl against an open descriptor, in one of the three shapes.
#[derive(Clone, Copy, Debug, PartialEq, Eq)]
pub enum Command {
    /// Let the driver write one integer and hand it back.
    ReadInt { fd: i32, op: Op },
    /// Hand the driver `value`.
    WriteInt { fd: i32, op: Op, value: i32 },
    /// Call the driver with no argument.
    Signal { fd: i32, op: Op },
}

/// How an ioctl ended: with the integer that was read (or, where nothing is
/// read, the value the call returned), or with the system's error number.
pub type Outcome = Result<i32, i32>;

impl Command {
    /// The descriptor the call goes to.
    pub open spec fn spec_fd(self) -> i32 {
        match self {
            Command::ReadInt { fd, .. } => fd,
            Command::WriteInt { fd, .. } => fd,
            Command::Signal { fd, .. } => fd,
        }
    }

    /// The operation that is called.
    pub open spec fn spec_op(self) -> Op {
        match self {
            Command::ReadInt { op, .. } => op,
            Command::WriteInt { op, .. } => op,
            Command::Signal { op, .. } => op,
        }
    }

    /// The shape the call is made in.
    pub open spec fn spec_shape(self) -> Shape {
        match self {
            Command::ReadInt { .. } => Shape::ReadInt,
            Command::WriteInt { .. } => Shape::WriteInt,
            Command::Signal { .. } => Shape::Signal,
        }
    }

    /// The call is made in the shape its operation has.
    pub open spec fn well_formed(self) -> bool {
        self.spec_shape() == self.spec_op().spec_shape()
    }

    #[verifier::when_used_as_spec(spec_fd)]
    pub fn fd(self) -> (fd: i32)
        ensures
            fd == self.spec_fd(),
    {
        match self {
            Command::ReadInt { fd, .. } => fd,
            Command::WriteInt { fd, .. } => fd,
            Command::Signal { fd, .. } => fd,
        }
    }

    #[verifier::when_used_as_spec(spec_op)]
    pub fn op(self) -> (op: Op)
        ensures
            op == self.spec_op(),
    {
        match self {
            Command::ReadInt { op, .. } => op,
            Command::WriteInt { op, .. } => op,
            Command::Signal { op, .. } => op,
        }
    }
}

impl Shape {
    /// The direction field of a request code for this shape.
    pub open spec fn direction(self) -> int {
        match self {
            Shape::Signal => 0,
            Shape::WriteInt => 1,
            Shape::ReadInt => 2,
        }
    }
}

impl Op {
    /// What the operation transfers.
    pub open spec fn spec_shape(self) -> Shape {
        match self {
            Op::WriteFanAuto => Shape::Signal,
            Op::WriteFanSpeed1
            | Op::WriteFanSpeed2
            | Op::WriteMode
            | Op::WriteModeEnable
            | Op::WriteTdp0
            | Op::WriteTdp1
            | Op::WriteTdp2
            | Op::WritePerfProfile => Shape::WriteInt,
            _ => Shape::ReadInt,
        }
    }

    /// The type byte the operation is filed under.
    pub open spec fn spec_magic(self) -> u8 {
        match self {
            Op::HwCheck => MAGIC,
            _ => match self.spec_shape() {
                Shape::ReadInt => MAGIC_READ,
                _ => MAGIC_WRITE,
            },
        }
    }

    /// The operation's number under its type byte.
    pub open spec fn spec_sequence(self) -> u8 {
        match self {
            Op::HwCheck => 0x06,
            Op::ReadFanSpeed1 => 0x10,
            Op::ReadFanSpeed2 => 0x11,
            Op::ReadFanTemp1 => 0x12,
            Op::ReadFanTemp2 => 0x13,
            Op::ReadMode => 0x14,
            Op::ReadModeEnable => 0x15,
            Op::ReadFansOffAvailable => 0x16,
            Op::ReadFansMinSpeed => 0x17,
            Op::ReadTdp0 => 0x18,
            Op::ReadTdp1 => 0x19,
            Op::ReadTdp2 => 0x1a,
            Op::ReadTdp0Min => 0x1b,
            Op::ReadTdp1Min => 0x1c,
            Op::ReadTdp2Min => 0x1d,
            Op::ReadTdp0Max => 0x1e,
            Op::ReadTdp1Max => 0x1f,
            Op::ReadTdp2Max => 0x20,
            Op::WriteFanSpeed1 => 0x10,
            Op::WriteFanSpeed2 => 0x11,
            Op::WriteMode => 0x12,
            Op::WriteModeEnable => 0x13,
            Op::WriteFanAuto => 0x14,
            Op::WriteTdp0 => 0x15,
            Op::WriteTdp1 => 0x16,
            Op::WriteTdp2 => 0x17,
            Op::WritePerfProfile => 0x18,
        }
    }

    /// The size field of the operation's request code, for an argument of
    /// `arg_size` bytes: a signal has no argument, and the field keeps the
    /// bits under `SIZE_MASK` of any other size.
    pub open spec fn spec_size(self, arg_size: u32) -> int {
        match self.spec_shape() {
            Shape::Signal => 0,
            _ => arg_size as int % 0x4000,
        }
    }

    /// The operation's request code, for an argument of `arg_size` bytes.
    pub open spec fn spec_request_code(self, arg_size: u32) -> int {
        encoded(
            self.spec_shape().direction(),
            self.spec_magic() as int,
            self.spec_sequence() as int,
            self.spec_size(arg_size),
        )
    }

    #[verifier::when_used_as_spec(spec_shape)]
    pub fn shape(self) -> (shape: Shape)
        ensures
            shape == self.spec_shape(),
    {
        match self {
            Op::WriteFanAuto => Shape::Signal,
            Op::WriteFanSpeed1
            | Op::WriteFanSpeed2
            | Op::WriteMode
            | Op::WriteModeEnable
            | Op::WriteTdp0
            | Op::WriteTdp1
            | Op::WriteTdp2
            | Op::WritePerfProfile => Shape::WriteInt,
            _ => Shape::ReadInt,
        }
    }

    #[verifier::when_used_as_spec(spec_magic)]
    pub fn magic(self) -> (magic: u8)
        ensures
            magic == self.spec_magic(),
    {
        match self {
            Op::HwCheck => MAGIC,
            _ => match self.shape() {
                Shape::ReadInt => MAGIC_READ,
                _ => MAGIC_WRITE,
            },
        }
    }

    #[verifier::when_used_as_spec(spec_sequence)]
    pub fn sequence(self) -> (sequence: u8)
        ensures
            sequence == self.spec_sequence(),
    {
        match self {
            Op::HwCheck => 0x06,
            Op::ReadFanSpeed1 | Op::WriteFanSpeed1 => 0x10,
            Op::ReadFanSpeed2 | Op::WriteFanSpeed2 => 0x11,
            Op::ReadFanTemp1 | Op::WriteMode => 0x12,
            Op::ReadFanTemp2 | Op::WriteModeEnable => 0x13,
            Op::ReadMode | Op::WriteFanAuto => 0x14,
            Op::ReadModeEnable | Op::WriteTdp0 => 0x15,
            Op::ReadFansOffAvailable | Op::WriteTdp1 => 0x16,
            Op::ReadFansMinSpeed | Op::WriteTdp2 => 0x17,
            Op::ReadTdp0 | Op::WritePerfProfile => 0x18,
            Op::ReadTdp1 => 0x19,
            Op::ReadTdp2 => 0x1a,
            Op::ReadTdp0Min => 0x1b,
            Op::ReadTdp1Min => 0x1c,
            Op::ReadTdp2Min => 0x1d,
            Op::ReadTdp0Max => 0x1e,
            Op::ReadTdp1Max => 0x1f,
            Op::ReadTdp2Max => 0x20,
        }
    }

    /// The request code to hand to the system call, where the argument the
    /// driver expects is `arg_size` bytes wide.
    pub fn request_code(self, arg_size: u32) -> (code: u32)
        ensures
            code as int == self.spec_request_code(arg_size),
    {
        match self.shape() {
            Shape::Signal => request_code(Shape::Signal, self.magic(), self.sequence(), 0),
            shape => request_code(shape, self.magic(), self.sequence(), arg_size),
        }
    }
}

/// A request code as a number: the direction above the size, the size above
/// the type byte, the type byte above the operation's number. This is how
/// Linux lays a code out on x86, ARM and RISC-V, the machines the driver is
/// built for.
pub open spec fn encoded(direction: int, magic: int, sequence: int, size: int) -> int {
    direction * 0x4000_0000 + size * 0x1_0000 + magic * 0x100 + sequence
}

/// Packs the four fields of a request code; a size too wide for its field
/// keeps its bits under `SIZE_MASK`.
pub fn request_code(shape: Shape, magic: u8, sequence: u8, size: u32) -> (code: u32)
    ensures
        code as int == encoded(
            shape.direction(),
            magic as int,
            sequence as int,
            size as int % 0x4000,
        ),
{
    let direction: u32 = match shape {
        Shape::Signal => 0,
        Shape::WriteInt => 1,
        Shape::ReadInt => 2,
    };
    let wide_magic: u32 = magic as u32;
    let wide_sequence: u32 = sequence as u32;
    let code: u32 = (direction << 30) | ((size & SIZE_MASK) << 16) | (wide_magic << 8)
        | wide_sequence;
    assert(code == direction * 0x4000_0000 + (size % 0x4000) * 0x1_0000 + wide_magic * 0x100
        + wide_sequence) by (bit_vector)
        requires
            direction <= 2,
            wide_magic < 0x100,
            wide_sequence < 0x100,
            SIZE_MASK == 0x3fff,
            code == (direction << 30) | ((size & SIZE_MASK) << 16) | (wide_magic << 8)
                | wide_sequence,
    ;
    code
}

/// Each field of a request code can be read back from the code.
pub proof fn lemma_encoded_fields(direction: int, magic: int, sequence: int, size: int)
    requires
        0 <= direction < 4,
        0 <= magic < 0x100,
        0 <= sequence < 0x100,
        0 <= size < 0x4000,
    ensures
        0 <= encoded(direction, magic, sequence, size) <= u32::MAX,
        encoded(direction, magic, sequence, size) / 0x4000_0000 == direction,
        encoded(direction, magic, sequence, size) / 0x1_0000 % 0x4000 == size,
        encoded(direction, magic, sequence, size) / 0x100 % 0x100 == magic,
        encoded(direction, magic, sequence, size) % 0x100 == sequence,
{
}

/// No two operations share a request code.
pub proof fn lemma_request_codes_distinct(first: Op, second: Op, arg_size: u32)
    requires
        first != second,
    ensures
        first.spec_request_code(arg_size) != second.spec_request_code(arg_size),
{
    let size_first = first.spec_size(arg_size);
    let size_second = second.spec_size(arg_size);
    lemma_encoded_fields(
        first.spec_shape().direction(),
        first.spec_magic() as int,
        first.spec_sequence() as int,
        size_first,
    );
    lemma_encoded_fields(
        second.spec_shape().direction(),
        second.spec_magic() as int,
        second.spec_sequence() as int,
        size_second,
    );
}

} // verus!
