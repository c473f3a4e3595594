//! The source builder: a resolved file path and a target frame size, and the
//! graph description that decodes, converts and scales that file.
use vstd::prelude::*;
use vstd::string::*;
use crate::video_stream::VideoStream;

verus! {

/// The kind of an I/O failure met while the source path was resolved.
#[derive(Debug, Clone, Copy, PartialEq, Eq)]
pub enum IoFailureKind {
    /// The path does not exist.
    NotFound,
    /// The path may not be read.
    PermissionDenied,
    /// Any other failure.
    Other,
}

/// An I/O failure, as plain values.
#[derive(Debug, Clone, PartialEq, Eq)]
pub struct IoFailure {
    pub kind: IoFailureKind,
    pub message: String,
}

/// Why a source could not be constructed. No graph exists at that point.
#[derive(Debug, Clone, PartialEq, Eq)]
pub enum CaptureError {
    /// The source path did not resolve.
    IoError(IoFailure),
}

/// A video file and the size that its frames are scaled to.
#[derive(Debug, PartialEq, Eq)]
pub struct FileSource {
    source: String,
    frame_size: (u32, u32),
}

/// The mathematical value of a [`FileSource`].
pub struct SourceView {
    /// The canonical path.
    pub path: Seq<char>,
    /// The target width in pixels.
    pub width: nat,
    /// The target height in pixels.
    pub height: nat,
}

impl View for FileSource {
    type V = SourceView;

    closed spec fn view(&self) -> SourceView {
        SourceView {
            path: self.source@,
            width: self.frame_size.0 as nat,
            height: self.frame_size.1 as nat,
        }
    }
}

/// The character of a decimal digit.
pub open spec fn digit_char(d: nat) -> char {
    if d == 0 {
        '0'
    } else if d == 1 {
        '1'
    } else if d == 2 {
        '2'
    } else if d == 3 {
        '3'
    } else if d == 4 {
        '4'
    } else if d == 5 {
        '5'
    } else if d == 6 {
        '6'
    } else if d == 7 {
        '7'
    } else if d == 8 {
        '8'
    } else {
        '9'
    }
}

/// The value of a decimal digit's character; 10 for any other character.
pub open spec fn digit_value(c: char) -> nat {
    if c == '0' {
        0
    } else if c == '1' {
        1
    } else if c == '2' {
        2
    } else if c == '3' {
        3
    } else if c == '4' {
        4
    } else if c == '5' {
        5
    } else if c == '6' {
        6
    } else if c == '7' {
        7
    } else if c == '8' {
        8
    } else if c == '9' {
        9
    } else {
        10
    }
}

/// The decimal numeral of `n`, without sign or leading zeros.
pub open spec fn decimal_digits(n: nat) -> Seq<char>
    decreases n,
{
    if n < 10 {
        seq![digit_char(n)]
    } else {
        decimal_digits(n / 10).push(digit_char(n % 10))
    }
}

/// The number that a sequence of decimal digits denotes.
pub open spec fn decimal_value(digits: Seq<char>) -> nat
    decreases digits.len(),
{
    if digits.len() == 0 {
        0
    } else {
        decimal_value(digits.drop_last()) * 10 + digit_value(digits.last())
    }
}

/// The graph description for the file at `path`, scaled to `width` by `height`.
pub open spec fn source_description(path: Seq<char>, width: nat, height: nat) -> Seq<char> {
    "uridecodebin uri=file://"@ + path
        + " ! videoconvert ! videoscale ! capsfilter caps=\"video/x-raw, width="@
        + decimal_digits(width) + ", height="@ + decimal_digits(height) + "\""@
}

/// The text of a decimal digit.
fn digit_text(d: u32) -> (text: &'static str)
    requires
        d < 10,
    ensures
        text@ == seq![digit_char(d as nat)],
{
    proof {
        reveal_strlit("0");
        reveal_strlit("1");
        reveal_strlit("2");
        reveal_strlit("3");
        reveal_strlit("4");
        reveal_strlit("5");
        reveal_strlit("6");
        reveal_strlit("7");
        reveal_strlit("8");
        reveal_strlit("9");
    }
    let text = if d == 0 {
        "0"
    } else if d == 1 {
        "1"
    } else if d == 2 {
        "2"
    } else if d == 3 {
        "3"
    } else if d == 4 {
        "4"
    } else if d == 5 {
        "5"
    } else if d == 6 {
        "6"
    } else if d == 7 {
        "7"
    } else if d == 8 {
        "8"
    } else {
        "9"
    };
    assert(text@ =~= seq![digit_char(d as nat)]);
    text
}

/// Appends the decimal numeral of `n` to `out`.
pub fn push_decimal(out: &mut String, n: u32)
    ensures
        final(out)@ == old(out)@ + decimal_digits(n as nat),
    decreases n,
{
    if n >= 10 {
        push_decimal(out, n / 10);
    }
    out.append(digit_text(n % 10));
    proof {
        let d = digit_char((n % 10) as nat);
        if n >= 10 {
            assert(old(out)@ + decimal_digits((n / 10) as nat) + seq![d] =~= old(out)@
                + decimal_digits((n / 10) as nat).push(d));
        } else {
            assert(old(out)@ + seq![d] =~= old(out)@ + decimal_digits(n as nat));
        }
    }
}

impl IoFailure {
    /// The failure reported for a path that resolved to nothing.
    pub fn not_found() -> (failure: IoFailure)
        ensures
            failure.kind == IoFailureKind::NotFound,
            failure.message@ == "File not found"@,
    {
        IoFailure { kind: IoFailureKind::NotFound, message: String::from_str("File not found") }
    }
}

impl CaptureError {
    /// The text of the error: `IO error: ` and the failure's message.
    pub fn message(&self) -> (text: String)
        ensures
            text@ == self.message_text(),
    {
        match self {
            CaptureError::IoError(failure) => {
                let mut text = String::from_str("IO error: ");
                text.append(failure.message.as_str());
                text
            },
        }
    }

    /// The text of [`CaptureError::message`].
    pub open spec fn message_text(&self) -> Seq<char> {
        match self {
            CaptureError::IoError(failure) => "IO error: "@ + failure.message@,
        }
    }
}

impl FileSource {
    /// Creates a source from the outcome of resolving its path.
    ///
    /// `resolved` is the canonical path, or the failure met on the way;
    /// `exists` says whether the canonical path names something that exists.
    /// A failure is handed on as it is; a canonical path that does not exist
    /// is reported as not found. Either way nothing is constructed.
    pub fn new(resolved: Result<String, IoFailure>, exists: bool, frame_size: (u32, u32)) -> (made:
        Result<FileSource, CaptureError>)
        ensures
            made.is_ok() <==> (resolved.is_ok() && exists),
            match resolved {
                Ok(path) => if exists {
                    made.is_ok() && made.unwrap()@ == (SourceView {
                        path: path@,
                        width: frame_size.0 as nat,
                        height: frame_size.1 as nat,
                    })
                } else {
                    match made {
                        Err(CaptureError::IoError(failure)) => failure.kind
                            == IoFailureKind::NotFound && failure.message@ == "File not found"@,
                        _ => false,
                    }
                },
                Err(failure) => made == Err::<FileSource, CaptureError>(
                    CaptureError::IoError(failure),
                ),
            },
    {
        match resolved {
            Ok(source) => {
                if !exists {
                    return Err(CaptureError::IoError(IoFailure::not_found()));
                }
                Ok(FileSource { source, frame_size })
            },
            Err(failure) => Err(CaptureError::IoError(failure)),
        }
    }

    /// The canonical path of the source.
    pub fn source(&self) -> (path: &str)
        ensures
            path@ == self@.path,
    {
        self.source.as_str()
    }

    /// The target size: width and height in pixels.
    pub fn frame_size(&self) -> (size: (u32, u32))
        ensures
            size.0 == self@.width,
            size.1 == self@.height,
    {
        self.frame_size
    }

    /// The graph description that decodes the file, converts it and scales it
    /// to the target size.
    pub fn pipeline_description(&self) -> (text: String)
        ensures
            text@ == source_description(self@.path, self@.width, self@.height),
    {
        let mut text = String::from_str("uridecodebin uri=file://");
        text.append(self.source.as_str());
        text.append(" ! videoconvert ! videoscale ! capsfilter caps=\"video/x-raw, width=");
        push_decimal(&mut text, self.frame_size.0);
        text.append(", height=");
        push_decimal(&mut text, self.frame_size.1);
        text.append("\"");
        text
    }

    /// Turns the source into a pipeline session for its graph description.
    pub fn into_stream(self) -> (stream: VideoStream)
        ensures
            stream@ == source_description(self@.path, self@.width, self@.height),
    {
        let text = self.pipeline_description();
        VideoStream::new(text.as_str())
    }
}

/// Every character of a decimal numeral is a digit, and the numeral is not
/// empty.
pub proof fn lemma_decimal_digits_are_digits(n: nat)
    ensures
        decimal_digits(n).len() >= 1,
        forall|i: int|
            0 <= i < decimal_digits(n).len() ==> digit_value(#[trigger] decimal_digits(n)[i]) < 10,
    decreases n,
{
    if n >= 10 {
        lemma_decimal_digits_are_digits(n / 10);
    }
}

/// A decimal numeral denotes the number it was made from.
pub proof fn lemma_decimal_round_trip(n: nat)
    ensures
        decimal_value(decimal_digits(n)) == n,
    decreases n,
{
    if n >= 10 {
        lemma_decimal_round_trip(n / 10);
        let digits = decimal_digits(n);
        assert(digits.drop_last() =~= decimal_digits(n / 10));
        assert(digits.last() == digit_char(n % 10));
    } else {
        let digits = decimal_digits(n);
        assert(digits.drop_last() =~= Seq::<char>::empty());
        assert(digits.last() == digit_char(n));
        assert(decimal_value(digits.drop_last()) == 0);
    }
}

/// Numbers that differ have numerals that differ.
pub proof fn lemma_decimal_digits_injective(a: nat, b: nat)
    requires
        decimal_digits(a) == decimal_digits(b),
    ensures
        a == b,
{
    lemma_decimal_round_trip(a);
    lemma_decimal_round_trip(b);
}

} // verus!
