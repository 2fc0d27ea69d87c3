//! What a sample decides before and while its window is open: how it was
//! started, what its window is called, and which window messages are its
//! own.

use vstd::prelude::*;
use vstd::string::StringExecFns;

verus! {

pub const WM_PAINT: u32 = 15;

pub const WM_KEYDOWN: u32 = 256;

pub const WM_KEYUP: u32 = 257;

/// What the command line asks of a sample.
#[derive(Clone, Copy, Debug, PartialEq, Eq, Structural)]
pub struct SampleCommandLine {
    /// Render with the software rasterizer instead of a hardware adapter.
    pub use_warp_device: bool,
}

impl Default for SampleCommandLine {
    fn default() -> (command_line: Self)
        ensures
            !command_line.use_warp_device,
    {
        SampleCommandLine { use_warp_device: false }
    }
}

/// An ASCII capital as its small letter, any other character as itself.
pub open spec fn ascii_lowercase(c: char) -> char {
    if 'A' <= c && c <= 'Z' {
        ((c as u8) + 32) as char
    } else {
        c
    }
}

/// Whether `a` and `b` are the same but for the case of ASCII letters.
pub open spec fn eq_ignore_ascii_case(a: Seq<char>, b: Seq<char>) -> bool {
    &&& a.len() == b.len()
    &&& forall|i: int| 0 <= i < a.len() ==> ascii_lowercase(a[i]) == ascii_lowercase(b[i])
}

/// Whether `arg` asks for the software rasterizer: `-warp` or `/warp`, in
/// capitals or small letters.
pub open spec fn is_warp_flag(arg: Seq<char>) -> bool {
    eq_ignore_ascii_case(arg, "-warp"@) || eq_ignore_ascii_case(arg, "/warp"@)
}

/// `str::eq_ignore_ascii_case`: whether the two strings match once the
/// ASCII capitals of both are made small letters. No other character is
/// changed by that, so the strings match exactly when they are equally
/// long and match character by character.
#[verifier::external_body]
fn str_eq_ignore_ascii_case(a: &str, b: &str) -> (equal: bool)
    ensures
        equal == eq_ignore_ascii_case(a@, b@),
{
    a.eq_ignore_ascii_case(b)
}

/// What the arguments of the process ask for. The software rasterizer is
/// used if any argument, the name of the program among them, is the flag
/// for it.
pub fn build_command_line(args: &Vec<String>) -> (command_line: SampleCommandLine)
    ensures
        command_line.use_warp_device == exists|i: int|
            0 <= i < args@.len() && is_warp_flag(#[trigger] args@[i]@),
{
    let mut use_warp_device = false;
    let mut i: usize = 0;
    while i < args.len()
        invariant
            i <= args@.len(),
            use_warp_device == exists|j: int| 0 <= j < i && is_warp_flag(#[trigger] args@[j]@),
        decreases args@.len() - i,
    {
        let arg = args[i].as_str();
        if str_eq_ignore_ascii_case(arg, "-warp") || str_eq_ignore_ascii_case(arg, "/warp") {
            use_warp_device = true;
        }
        i = i + 1;
    }
    SampleCommandLine { use_warp_device }
}

/// The end that the title of a window gets when the software rasterizer
/// renders into it.
pub open spec fn warp_suffix() -> Seq<char> {
    " (WARP)"@
}

/// The title of the window of a sample called `title`.
pub fn window_title(title: String, command_line: &SampleCommandLine) -> (shown: String)
    ensures
        shown@ == if command_line.use_warp_device {
            title@ + warp_suffix()
        } else {
            title@
        },
{
    let mut title = title;
    if command_line.use_warp_device {
        title.append(" (WARP)");
    }
    title
}

/// A window message that a sample acts on.
#[derive(Clone, Copy, Debug, PartialEq, Eq, Structural)]
pub enum SampleMessage {
    /// The key with this virtual key code went down.
    KeyDown(u16),
    /// The key with this virtual key code came up.
    KeyUp(u16),
    /// The window is to be drawn: the sample updates and renders.
    Paint,
}

/// What the window message `message` with first parameter `wparam` asks
/// of a sample, if anything. The virtual key code of a key message is the
/// low 16 bits of the parameter.
pub open spec fn spec_sample_message(message: u32, wparam: usize) -> Option<SampleMessage> {
    if message == WM_KEYDOWN {
        Some(SampleMessage::KeyDown(wparam as u16))
    } else if message == WM_KEYUP {
        Some(SampleMessage::KeyUp(wparam as u16))
    } else if message == WM_PAINT {
        Some(SampleMessage::Paint)
    } else {
        None
    }
}

/// Sorts a window message. `None` is a message that the sample leaves to
/// the window's default procedure.
pub fn sample_message(message: u32, wparam: usize) -> (asked: Option<SampleMessage>)
    ensures
        asked == spec_sample_message(message, wparam),
{
    if message == WM_KEYDOWN {
        Some(SampleMessage::KeyDown(#[verifier::truncate] (wparam as u16)))
    } else if message == WM_KEYUP {
        Some(SampleMessage::KeyUp(#[verifier::truncate] (wparam as u16)))
    } else if message == WM_PAINT {
        Some(SampleMessage::Paint)
    } else {
        None
    }
}

/// The low 16 bits of a parameter are what is left of it after division
/// by 65536.
pub proof fn lemma_key_code_is_low_word(wparam: usize)
    ensures
        (wparam as u16) == wparam % 0x1_0000,
{
    assert((wparam as u16) == wparam % 0x1_0000) by (bit_vector);
}

} // verus!
