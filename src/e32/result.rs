use vstd::prelude::*;
use vstd::string::StringExecFns;

verus! {

/// What an E32 operation can fail with; `E` is the serial channel's error.
#[derive(Debug)]
pub enum Error<E> {
    /// A mode change was asked for while the UART rate was not 9600 baud.
    InvalidBaudRate(u16),
    /// The configuration frame read back from the module was refused.
    ParseConfigurationError(ParseConfigurationError),
    /// The serial channel failed to read or write a byte.
    SerialError(E),
    /// The payload does not fit in a frame of the given capacity.
    InvalidWriteSize(usize),
}

/// Why a configuration frame was refused; each variant but `CouldNotParse`
/// carries the raw byte the refused field came from.
#[derive(Debug, Clone, Copy, PartialEq, Eq, Structural)]
pub enum ParseConfigurationError {
    CouldNotParse,
    InvalidHead(u8),
    InvalidUartParity(u8),
    InvalidUartBaudRate(u8),
    InvalidAirDataRate(u8),
    InvalidTransmission(u8),
    InvalidWirelessWakeUpTime(u8),
    InvalidIoDriveMode(u8),
    InvalidTxPower(u8),
}

/// The character of the decimal digit `d`.
pub open spec fn digit_char(d: nat) -> char {
    seq!['0', '1', '2', '3', '4', '5', '6', '7', '8', '9'][d as int]
}

/// `n` in decimal, most significant digit first, without padding.
pub open spec fn decimal(n: nat) -> Seq<char>
    decreases n,
{
    if n < 10 {
        seq![digit_char(n)]
    } else {
        decimal(n / 10).push(digit_char(n % 10))
    }
}

/// The `k` lowest binary digits of `n`, most significant first.
pub open spec fn binary_digits(n: nat, k: nat) -> Seq<char>
    decreases k,
{
    if k == 0 {
        seq![]
    } else {
        binary_digits(n / 2, (k - 1) as nat).push(if n % 2 == 1 { '1' } else { '0' })
    }
}

/// A byte as `0b` followed by its eight binary digits.
pub open spec fn byte_in_binary(v: u8) -> Seq<char> {
    seq!['0', 'b'] + binary_digits(v as nat, 8)
}

/// Relies on `ToString` for `u64`, which renders the number in decimal.
#[verifier::external_body]
fn decimal_string(v: u64) -> (r: String)
    ensures
        r@ == decimal(v as nat),
{
    v.to_string()
}

/// Relies on `format!` with `{:#010b}`, which renders a byte as `0b` and
/// eight binary digits.
#[verifier::external_body]
fn binary_string(v: u8) -> (r: String)
    ensures
        r@ == byte_in_binary(v),
{
    format!("{:#010b}", v)
}

/// What a refused configuration frame is reported as.
pub open spec fn parse_error_text(e: ParseConfigurationError) -> Seq<char> {
    match e {
        ParseConfigurationError::CouldNotParse => "Could not parse configuration."@,
        ParseConfigurationError::InvalidHead(v) => "Invalid head "@ + decimal(v as nat),
        ParseConfigurationError::InvalidUartParity(v) => "Invalid uart parity "@ + byte_in_binary(v),
        ParseConfigurationError::InvalidUartBaudRate(v) => "Invalid uart baud rate "@
            + byte_in_binary(v),
        ParseConfigurationError::InvalidAirDataRate(v) => "Invalid air data rate "@
            + byte_in_binary(v),
        ParseConfigurationError::InvalidTransmission(v) => "Invalid transmission "@
            + byte_in_binary(v),
        ParseConfigurationError::InvalidWirelessWakeUpTime(v) => "Invalid wireless wake up time "@
            + byte_in_binary(v),
        ParseConfigurationError::InvalidIoDriveMode(v) => "Invalid io drive mode "@
            + byte_in_binary(v),
        ParseConfigurationError::InvalidTxPower(v) => "Invalid tx power "@ + byte_in_binary(v),
    }
}

impl ParseConfigurationError {
    /// A sentence that says why the frame was refused.
    pub fn message(&self) -> (r: String)
        ensures
            r@ == parse_error_text(*self),
    {
        match *self {
            ParseConfigurationError::CouldNotParse => String::from_str(
                "Could not parse configuration.",
            ),
            ParseConfigurationError::InvalidHead(v) => String::from_str("Invalid head ").concat(
                decimal_string(v as u64).as_str(),
            ),
            ParseConfigurationError::InvalidUartParity(v) => String::from_str(
                "Invalid uart parity ",
            ).concat(binary_string(v).as_str()),
            ParseConfigurationError::InvalidUartBaudRate(v) => String::from_str(
                "Invalid uart baud rate ",
            ).concat(binary_string(v).as_str()),
            ParseConfigurationError::InvalidAirDataRate(v) => String::from_str(
                "Invalid air data rate ",
            ).concat(binary_string(v).as_str()),
            ParseConfigurationError::InvalidTransmission(v) => String::from_str(
                "Invalid transmission ",
            ).concat(binary_string(v).as_str()),
            ParseConfigurationError::InvalidWirelessWakeUpTime(v) => String::from_str(
                "Invalid wireless wake up time ",
            ).concat(binary_string(v).as_str()),
            ParseConfigurationError::InvalidIoDriveMode(v) => String::from_str(
                "Invalid io drive mode ",
            ).concat(binary_string(v).as_str()),
            ParseConfigurationError::InvalidTxPower(v) => String::from_str(
                "Invalid tx power ",
            ).concat(binary_string(v).as_str()),
        }
    }
}

impl<E> Error<E> {
    /// A sentence that says what went wrong, or `None` for a failure of the
    /// serial channel, whose error the caller reports in its own way.
    pub fn message(&self) -> (r: Option<String>)
        ensures
            match *self {
                Error::InvalidBaudRate(v) => r is Some && r->Some_0@
                    == "Could not configure module because of an invalid baud rate. Value: "@
                    + decimal(v as nat) + "."@,
                Error::ParseConfigurationError(e) => r is Some && r->Some_0@ == parse_error_text(
                    e,
                ),
                Error::SerialError(_) => r is None,
                Error::InvalidWriteSize(v) => r is Some && r->Some_0@
                    == "To transmit data, the buffer capacity needs to be at least 4 bytes long. Current capacity: "@
                    + decimal(v as nat) + "."@,
            },
    {
        match self {
            Error::InvalidBaudRate(v) => Some(
                String::from_str(
                    "Could not configure module because of an invalid baud rate. Value: ",
                ).concat(decimal_string(*v as u64).as_str()).concat("."),
            ),
            Error::ParseConfigurationError(e) => Some(e.message()),
            Error::SerialError(_) => None,
            Error::InvalidWriteSize(v) => Some(
                String::from_str(
                    "To transmit data, the buffer capacity needs to be at least 4 bytes long. Current capacity: ",
                ).concat(decimal_string(*v as u64).as_str()).concat("."),
            ),
        }
    }
}

} // verus!
