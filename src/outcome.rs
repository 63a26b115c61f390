//! Install outcomes: how the installer's exit status and captured output become
//! a success or a failure, and the text that reports each.

use vstd::prelude::*;
use vstd::utf8::{decode_utf8, valid_utf8};

verus! {

/// Why an install attempt did not succeed.
#[derive(Debug, Clone, PartialEq, Eq)]
pub enum InstallError {
    /// A request arrived without a payload.
    MissingPayload,
    /// A request's payload could not be read as bytes; it carries the
    /// encoding the transport reported for it.
    UndecodablePayload(String),
    /// A request was handed to a receiver while an install was still running.
    /// A receive loop that waits for each install to be reported before it
    /// takes the next message never hands one over: a message that arrives
    /// meanwhile waits in the transport and is handled after the install.
    ReceiverBusy,
    /// The transient workspace could not be created.
    WorkspaceUnavailable,
    /// The payload could not be unpacked as an archive.
    ArchiveCorrupt,
    /// The archive unpacked, but held no package at the expected name.
    PackageMissing,
    /// The package manager could not be started.
    SpawnFailed,
    /// The package manager's output was not UTF-8.
    OutputNotUtf8,
    /// The package manager ran and reported failure; `exit_code` is `None`
    /// when it was terminated abnormally.
    InstallerFailed { stdout: String, stderr: String, exit_code: Option<i32> },
}

/// What an install attempt produced: the installer's stdout, or why it failed.
pub type InstallOutcome = Result<String, InstallError>;

/// The digit `d` (below ten) as a character.
pub open spec fn digit_char(d: nat) -> char {
    seq!['0', '1', '2', '3', '4', '5', '6', '7', '8', '9'][d as int]
}

/// Decimal digits of a natural number, most significant first.
pub open spec fn decimal_digits(n: nat) -> Seq<char>
    decreases n,
{
    if n < 10 {
        seq![digit_char(n)]
    } else {
        decimal_digits(n / 10).push(digit_char(n % 10))
    }
}

/// Decimal notation of an integer, with a leading `-` when it is negative.
pub open spec fn decimal_text(n: int) -> Seq<char> {
    if n < 0 {
        seq!['-'] + decimal_digits((-n) as nat)
    } else {
        decimal_digits(n as nat)
    }
}

/// How an exit status is written in a failure report.
pub open spec fn exit_text(exit_code: Option<i32>) -> Seq<char> {
    match exit_code {
        Some(c) => decimal_text(c as int),
        None => "terminated abnormally"@,
    }
}

/// The failure report of each kind of failure.
pub open spec fn failure_text(e: InstallError) -> Seq<char> {
    match e {
        InstallError::MissingPayload => "Install query doesn't contain value"@,
        InstallError::UndecodablePayload(encoding) =>
            "Failed to extract binary payload from message. Unexpected encoding "@ + encoding@,
        InstallError::ReceiverBusy => "Another install is in progress"@,
        InstallError::WorkspaceUnavailable => "Failed to create install directory"@,
        InstallError::ArchiveCorrupt => "Failed to unpack archive"@,
        InstallError::PackageMissing => "Package not found in archive"@,
        InstallError::SpawnFailed => "Failed to spawn dpkg"@,
        InstallError::OutputNotUtf8 => "Failed to parse installer output as utf-8"@,
        InstallError::InstallerFailed { stdout, stderr, exit_code } => "Failed with stdout: "@
            + stdout@ + " stderr: "@ + stderr@ + " exit: "@ + exit_text(exit_code),
    }
}

/// The outcome that an installer run with exit code `exit_code` (`None` when it
/// was terminated abnormally) and captured output `stdout` and `stderr` has:
/// output that is not UTF-8 is a failure of its own; else exit code 0 is success
/// with the stdout text, and anything else a failure that carries both texts and
/// the code.
pub open spec fn run_outcome(exit_code: Option<i32>, stdout: Seq<u8>, stderr: Seq<u8>, r: InstallOutcome) -> bool {
    if !(valid_utf8(stdout) && valid_utf8(stderr)) {
        r == Err::<String, InstallError>(InstallError::OutputNotUtf8)
    } else if exit_code == Some(0i32) {
        r matches Ok(out) && out@ == decode_utf8(stdout)
    } else {
        r matches Err(InstallError::InstallerFailed { stdout: out, stderr: err, exit_code: code })
            && out@ == decode_utf8(stdout) && err@ == decode_utf8(stderr) && code == exit_code
    }
}

/// Relies on std::str::from_utf8: it succeeds exactly on valid UTF-8, and then
/// yields the characters that the bytes encode.
#[verifier::external_body]
fn utf8_text(bytes: &[u8]) -> (r: Option<String>)
    ensures
        r is Some <==> valid_utf8(bytes@),
        r matches Some(s) ==> s@ == decode_utf8(bytes@),
{
    match std::str::from_utf8(bytes) {
        Ok(s) => Some(s.to_string()),
        Err(_) => None,
    }
}

/// Relies on the `Display` impl of i32 (through `to_string`): decimal digits,
/// preceded by `-` for a negative number.
#[verifier::external_body]
fn decimal_string(n: i32) -> (r: String)
    ensures
        r@ == decimal_text(n as int),
{
    n.to_string()
}

/// Decides the outcome of a finished installer run from its exit code (`None`
/// when it was terminated abnormally) and its captured output.
pub fn installer_outcome(exit_code: Option<i32>, stdout: &[u8], stderr: &[u8]) -> (r: InstallOutcome)
    ensures
        run_outcome(exit_code, stdout@, stderr@, r),
{
    let err = match utf8_text(stderr) {
        Some(t) => t,
        None => {
            return Err(InstallError::OutputNotUtf8);
        },
    };
    let out = match utf8_text(stdout) {
        Some(t) => t,
        None => {
            return Err(InstallError::OutputNotUtf8);
        },
    };
    match exit_code {
        Some(0) => Ok(out),
        _ => Err(InstallError::InstallerFailed { stdout: out, stderr: err, exit_code }),
    }
}

/// The text that reports a failure.
pub fn failure_message(e: &InstallError) -> (r: String)
    ensures
        r@ == failure_text(*e),
{
    match e {
        InstallError::MissingPayload => String::from_str("Install query doesn't contain value"),
        InstallError::UndecodablePayload(encoding) => {
            let mut m = String::from_str(
                "Failed to extract binary payload from message. Unexpected encoding ",
            );
            m.append(encoding.as_str());
            m
        },
        InstallError::ReceiverBusy => String::from_str("Another install is in progress"),
        InstallError::WorkspaceUnavailable => String::from_str("Failed to create install directory"),
        InstallError::ArchiveCorrupt => String::from_str("Failed to unpack archive"),
        InstallError::PackageMissing => String::from_str("Package not found in archive"),
        InstallError::SpawnFailed => String::from_str("Failed to spawn dpkg"),
        InstallError::OutputNotUtf8 => String::from_str("Failed to parse installer output as utf-8"),
        InstallError::InstallerFailed { stdout, stderr, exit_code } => {
            let mut m = String::from_str("Failed with stdout: ");
            m.append(stdout.as_str());
            m.append(" stderr: ");
            m.append(stderr.as_str());
            m.append(" exit: ");
            match exit_code {
                Some(c) => {
                    let digits = decimal_string(*c);
                    m.append(digits.as_str());
                },
                None => m.append("terminated abnormally"),
            }
            m
        },
    }
}

} // verus!
