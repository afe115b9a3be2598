//! The command line of the serial console: bytes are gathered in a small
//! fixed buffer until a carriage return ends the line, and the line is then
//! read as the name of a sensor.

use vstd::prelude::*;
use vstd::string::StringSliceAdditionalSpecFns;
use vstd::utf8::{decode_utf8, encode_utf8_decode_utf8, valid_utf8};

verus! {

/// Number of bytes that a line can hold, the carriage return included.
pub const LINE_CAPACITY: usize = 14;

/// The byte that ends a line: the carriage return.
pub const END_OF_LINE: u8 = 13;

/// The fixed-capacity vector of the `heapless` crate.
#[verifier::external_type_specification]
#[verifier::external_body]
#[verifier::reject_recursive_types(T)]
pub struct ExHeaplessVec<T, const N: usize>(heapless::Vec<T, N>);

/// The bytes that a line buffer holds, oldest first.
pub uninterp spec fn line_bytes(buffer: heapless::Vec<u8, 14>) -> Seq<u8>;

/// What `str::trim` leaves of a text: the text without the white space at
/// its start and at its end.
pub uninterp spec fn trimmed(text: Seq<char>) -> Seq<char>;

/// `heapless::Vec::new`: the new vector holds nothing.
#[verifier::external_body]
fn line_new() -> (buffer: heapless::Vec<u8, 14>)
    ensures
        line_bytes(buffer) == Seq::<u8>::empty(),
{
    heapless::Vec::new()
}

/// `heapless::Vec::clear`: afterwards the vector holds nothing.
#[verifier::external_body]
fn line_clear(buffer: &mut heapless::Vec<u8, 14>)
    ensures
        line_bytes(*final(buffer)) == Seq::<u8>::empty(),
{
    buffer.clear()
}

/// `heapless::Vec::push`: a vector with fewer items than its capacity takes
/// the item at its end; a full one stays as it is and hands the item back,
/// which is reported as `false`.
#[verifier::external_body]
fn line_push(buffer: &mut heapless::Vec<u8, 14>, byte: u8) -> (stored: bool)
    ensures
        stored == (line_bytes(*old(buffer)).len() < 14),
        stored ==> line_bytes(*final(buffer)) == line_bytes(*old(buffer)).push(byte),
        !stored ==> line_bytes(*final(buffer)) == line_bytes(*old(buffer)),
{
    buffer.push(byte).is_ok()
}

/// `heapless::Vec::as_slice`: the slice holds the items of the vector.
#[verifier::external_body]
fn line_slice(buffer: &heapless::Vec<u8, 14>) -> (bytes: &[u8])
    ensures
        bytes@ == line_bytes(*buffer),
{
    buffer.as_slice()
}

/// `core::str::from_utf8`: bytes that are valid UTF-8 are handed back as a
/// string slice over the same bytes; for any others there is no text.
#[verifier::external_body]
fn utf8_text(bytes: &[u8]) -> (text: Option<&str>)
    ensures
        text is Some == valid_utf8(bytes@),
        text matches Some(t) ==> t.spec_bytes() == bytes@,
{
    core::str::from_utf8(bytes).ok()
}

/// `str::trim`: the result is what the name `trimmed` stands for.
#[verifier::external_body]
fn trim_text(text: &str) -> (rest: &str)
    ensures
        rest@ == trimmed(text@),
{
    text.trim()
}

/// What the serial peer asked for.
#[derive(Clone, Copy, Debug, PartialEq, Eq)]
pub enum Request {
    /// A reading of the magnetic field.
    Magnetometer,
    /// A reading of the acceleration.
    Accelerometer,
    /// Something that is no command.
    Unknown,
}

/// The request that a command stands for: the two sensor names, written
/// out in lower case, are commands and nothing else is.
pub open spec fn request_of(command: Seq<char>) -> Request {
    if command == "magnetometer"@ {
        Request::Magnetometer
    } else if command == "accelerometer"@ {
        Request::Accelerometer
    } else {
        Request::Unknown
    }
}

/// Reads a command, as a completed line gave it.
pub fn classify(command: &str) -> (request: Request)
    ensures
        request == request_of(command@),
{
    let command = command.to_owned();
    if command == "magnetometer".to_owned() {
        Request::Magnetometer
    } else if command == "accelerometer".to_owned() {
        Request::Accelerometer
    } else {
        Request::Unknown
    }
}

/// What a byte did to the line.
#[derive(Debug, PartialEq, Eq)]
pub enum LineEvent {
    /// The byte was stored; the line goes on.
    Pending,
    /// The line was full already: the byte and the line are dropped.
    Overflow,
    /// The line ended, and its bytes are no text.
    Malformed,
    /// The line ended: this is its text, without the white space round it.
    Complete(String),
}

/// The line that is being received.
pub struct CommandLine {
    buffer: heapless::Vec<u8, 14>,
}

impl View for CommandLine {
    type V = Seq<u8>;

    closed spec fn view(&self) -> Seq<u8> {
        line_bytes(self.buffer)
    }
}

impl CommandLine {
    /// An empty line.
    pub fn new() -> (line: CommandLine)
        ensures
            line@ == Seq::<u8>::empty(),
    {
        CommandLine { buffer: line_new() }
    }

    /// Takes the next byte from the serial line.
    ///
    /// A byte that finds the line full is dropped together with the line.
    /// Any other byte is stored. If it is the carriage return, the line is
    /// complete: its bytes, the carriage return included, are read as UTF-8
    /// text, the text is trimmed and handed out, and the line starts anew.
    pub fn feed(&mut self, byte: u8) -> (event: LineEvent)
        ensures
            final(self)@ == line_after(old(self)@, byte),
            event is Overflow <==> old(self)@.len() >= LINE_CAPACITY,
            event is Pending <==> old(self)@.len() < LINE_CAPACITY && byte != END_OF_LINE,
            event is Malformed <==> completes(old(self)@, byte) && !valid_utf8(
                old(self)@.push(byte),
            ),
            event is Complete <==> completes(old(self)@, byte) && valid_utf8(
                old(self)@.push(byte),
            ),
            event matches LineEvent::Complete(text) ==> text@ == trimmed(
                decode_utf8(old(self)@.push(byte)),
            ),
    {
        if !line_push(&mut self.buffer, byte) {
            line_clear(&mut self.buffer);
            return LineEvent::Overflow;
        }
        if byte != END_OF_LINE {
            return LineEvent::Pending;
        }
        let event = match utf8_text(line_slice(&self.buffer)) {
            Some(text) => {
                proof {
                    encode_utf8_decode_utf8(text@);
                }
                LineEvent::Complete(trim_text(text).to_owned())
            },
            None => LineEvent::Malformed,
        };
        line_clear(&mut self.buffer);
        event
    }
}

/// Whether `byte` completes the line: it is the carriage return and the
/// line has room for it.
pub open spec fn completes(line: Seq<u8>, byte: u8) -> bool {
    line.len() < LINE_CAPACITY && byte == END_OF_LINE
}

/// The line after `byte` arrived: one byte longer where the byte finds room
/// and does not end the line, empty where the line was completed or
/// dropped.
pub open spec fn line_after(line: Seq<u8>, byte: u8) -> Seq<u8> {
    if line.len() < LINE_CAPACITY && byte != END_OF_LINE {
        line.push(byte)
    } else {
        Seq::<u8>::empty()
    }
}

/// The line after the bytes `bytes` arrived in turn.
pub open spec fn line_after_all(line: Seq<u8>, bytes: Seq<u8>) -> Seq<u8>
    decreases bytes.len(),
{
    if bytes.len() == 0 {
        line
    } else {
        line_after(line_after_all(line, bytes.drop_last()), bytes.last())
    }
}

/// Whatever bytes arrive, the line in progress never holds more than its
/// capacity, and never a carriage return.
pub proof fn law_line_bounded(bytes: Seq<u8>)
    ensures
        line_after_all(Seq::<u8>::empty(), bytes).len() <= LINE_CAPACITY,
        forall|i: int|
            0 <= i < line_after_all(Seq::<u8>::empty(), bytes).len() ==> line_after_all(
                Seq::<u8>::empty(),
                bytes,
            )[i] != END_OF_LINE,
    decreases bytes.len(),
{
    if bytes.len() > 0 {
        law_line_bounded(bytes.drop_last());
    }
}

/// Both commands fit a line together with the carriage return that ends
/// them, the longer one exactly.
pub proof fn law_commands_fit()
    ensures
        "magnetometer"@.len() + 1 <= LINE_CAPACITY,
        "accelerometer"@.len() + 1 == LINE_CAPACITY,
        request_of("magnetometer"@) == Request::Magnetometer,
        request_of("accelerometer"@) == Request::Accelerometer,
{
    reveal_strlit("magnetometer");
    reveal_strlit("accelerometer");
}

} // verus!
