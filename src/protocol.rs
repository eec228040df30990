//! Registers and register values of the MAX7219, and the two-byte commands
//! built from them.
use vstd::prelude::*;

verus! {

/// A register of the chip.
pub enum Command {
    NoOp,
    DecodeMode,
    Intensity,
    ScanLimit,
    Shutdown,
    DisplayTest,
}

impl Command {
    /// Register address on the wire.
    pub open spec fn address_spec(self) -> u8 {
        match self {
            Command::NoOp => 0x00,
            Command::DecodeMode => 0x09,
            Command::Intensity => 0x0A,
            Command::ScanLimit => 0x0B,
            Command::Shutdown => 0x0C,
            Command::DisplayTest => 0x0F,
        }
    }

    pub fn address(&self) -> (r: u8)
        ensures
            r == self.address_spec(),
    {
        match self {
            Command::NoOp => 0x00,
            Command::DecodeMode => 0x09,
            Command::Intensity => 0x0A,
            Command::ScanLimit => 0x0B,
            Command::Shutdown => 0x0C,
            Command::DisplayTest => 0x0F,
        }
    }
}

/// Value of the decode-mode register.
pub enum DecodeMode {
    NoDecode,
    CodeB0,
    CodeB30,
    CodeB70,
}

impl DecodeMode {
    pub open spec fn value_spec(self) -> u8 {
        match self {
            DecodeMode::NoDecode => 0x00,
            DecodeMode::CodeB0 => 0x01,
            DecodeMode::CodeB30 => 0x0F,
            DecodeMode::CodeB70 => 0xFF,
        }
    }

    pub fn value(&self) -> (r: u8)
        ensures
            r == self.value_spec(),
    {
        match self {
            DecodeMode::NoDecode => 0x00,
            DecodeMode::CodeB0 => 0x01,
            DecodeMode::CodeB30 => 0x0F,
            DecodeMode::CodeB70 => 0xFF,
        }
    }
}

/// Value of the intensity register: a duty cycle of (2v+1)/32, v in 0..16.
pub enum Intensity {
    Min,
    Ratio3_32,
    Ratio5_32,
    Ratio7_32,
    Ratio9_32,
    Ratio11_32,
    Ratio13_32,
    Ratio15_32,
    Ratio17_32,
    Ratio19_32,
    Ratio21_32,
    Ratio23_32,
    Ratio25_32,
    Ratio27_32,
    Ratio29_32,
    Max,
}

impl Intensity {
    pub open spec fn value_spec(self) -> u8 {
        match self {
            Intensity::Min => 0x00,
            Intensity::Ratio3_32 => 0x01,
            Intensity::Ratio5_32 => 0x02,
            Intensity::Ratio7_32 => 0x03,
            Intensity::Ratio9_32 => 0x04,
            Intensity::Ratio11_32 => 0x05,
            Intensity::Ratio13_32 => 0x06,
            Intensity::Ratio15_32 => 0x07,
            Intensity::Ratio17_32 => 0x08,
            Intensity::Ratio19_32 => 0x09,
            Intensity::Ratio21_32 => 0x0A,
            Intensity::Ratio23_32 => 0x0B,
            Intensity::Ratio25_32 => 0x0C,
            Intensity::Ratio27_32 => 0x0D,
            Intensity::Ratio29_32 => 0x0E,
            Intensity::Max => 0x0F,
        }
    }

    pub fn value(&self) -> (r: u8)
        ensures
            r == self.value_spec(),
    {
        match self {
            Intensity::Min => 0x00,
            Intensity::Ratio3_32 => 0x01,
            Intensity::Ratio5_32 => 0x02,
            Intensity::Ratio7_32 => 0x03,
            Intensity::Ratio9_32 => 0x04,
            Intensity::Ratio11_32 => 0x05,
            Intensity::Ratio13_32 => 0x06,
            Intensity::Ratio15_32 => 0x07,
            Intensity::Ratio17_32 => 0x08,
            Intensity::Ratio19_32 => 0x09,
            Intensity::Ratio21_32 => 0x0A,
            Intensity::Ratio23_32 => 0x0B,
            Intensity::Ratio25_32 => 0x0C,
            Intensity::Ratio27_32 => 0x0D,
            Intensity::Ratio29_32 => 0x0E,
            Intensity::Max => 0x0F,
        }
    }
}

/// Value of the shutdown register.
pub enum Shutdown {
    ShutDownMode,
    NormalOperation,
}

impl Shutdown {
    pub open spec fn value_spec(self) -> u8 {
        match self {
            Shutdown::ShutDownMode => 0x00,
            Shutdown::NormalOperation => 0x01,
        }
    }

    pub fn value(&self) -> (r: u8)
        ensures
            r == self.value_spec(),
    {
        match self {
            Shutdown::ShutDownMode => 0x00,
            Shutdown::NormalOperation => 0x01,
        }
    }
}

/// Value of the scan-limit register: rows 0 to v are displayed.
pub enum ScanLimit {
    Display0Only,
    Display0And1,
    Display0To2,
    Display0To3,
    Display0To4,
    Display0To5,
    Display0To6,
    Display0To7,
}

impl ScanLimit {
    pub open spec fn value_spec(self) -> u8 {
        match self {
            ScanLimit::Display0Only => 0x00,
            ScanLimit::Display0And1 => 0x01,
            ScanLimit::Display0To2 => 0x02,
            ScanLimit::Display0To3 => 0x03,
            ScanLimit::Display0To4 => 0x04,
            ScanLimit::Display0To5 => 0x05,
            ScanLimit::Display0To6 => 0x06,
            ScanLimit::Display0To7 => 0x07,
        }
    }

    pub fn value(&self) -> (r: u8)
        ensures
            r == self.value_spec(),
    {
        match self {
            ScanLimit::Display0Only => 0x00,
            ScanLimit::Display0And1 => 0x01,
            ScanLimit::Display0To2 => 0x02,
            ScanLimit::Display0To3 => 0x03,
            ScanLimit::Display0To4 => 0x04,
            ScanLimit::Display0To5 => 0x05,
            ScanLimit::Display0To6 => 0x06,
            ScanLimit::Display0To7 => 0x07,
        }
    }
}

/// A command as sent on the wire: register address, then data byte.
pub fn command_frame(cmd: Command, data: u8) -> (r: Vec<u8>)
    ensures
        r@ == seq![cmd.address_spec(), data],
{
    let mut r: Vec<u8> = Vec::new();
    r.push(cmd.address());
    r.push(data);
    r
}

/// The command that puts the chips into `mode`.
pub fn power_mode_command(mode: Shutdown) -> (r: Vec<u8>)
    ensures
        r@ == seq![0x0Cu8, mode.value_spec()],
{
    command_frame(Command::Shutdown, mode.value())
}

/// The command that sets the decode mode.
pub fn decode_mode_command(mode: DecodeMode) -> (r: Vec<u8>)
    ensures
        r@ == seq![0x09u8, mode.value_spec()],
{
    command_frame(Command::DecodeMode, mode.value())
}

/// The command that sets the scan limit.
pub fn scan_limit_command(mode: ScanLimit) -> (r: Vec<u8>)
    ensures
        r@ == seq![0x0Bu8, mode.value_spec()],
{
    command_frame(Command::ScanLimit, mode.value())
}

/// The command that sets the intensity.
pub fn intensity_command(mode: Intensity) -> (r: Vec<u8>)
    ensures
        r@ == seq![0x0Au8, mode.value_spec()],
{
    command_frame(Command::Intensity, mode.value())
}

/// The commands that bring the chips up, in the order they are sent:
/// normal operation, no decoding, all eight rows scanned, intensity 3/32.
pub open spec fn init_frames_spec() -> Seq<Seq<u8>> {
    seq![seq![0x0Cu8, 0x01u8], seq![0x09u8, 0x00u8], seq![0x0Bu8, 0x07u8], seq![0x0Au8, 0x01u8]]
}

pub fn init_frames() -> (r: Vec<Vec<u8>>)
    ensures
        r@.len() == 4,
        forall|k: int| 0 <= k < 4 ==> (#[trigger] r@[k])@ == init_frames_spec()[k],
{
    let mut r: Vec<Vec<u8>> = Vec::new();
    r.push(power_mode_command(Shutdown::NormalOperation));
    r.push(decode_mode_command(DecodeMode::NoDecode));
    r.push(scan_limit_command(ScanLimit::Display0To7));
    r.push(intensity_command(Intensity::Ratio3_32));
    r
}

} // verus!
