//! Preparation of shader sources and compile logs.

use vstd::prelude::*;

verus! {

/// Size of the buffer into which a shader's compile log is read, in bytes.
pub const INFO_LOG_CAPACITY: usize = 1024;

/// Calls `String::push`, which std documents as appending the given char
/// to the end of the string.
#[verifier::external_body]
fn string_push(s: &mut String, c: char)
    ensures
        final(s)@ == old(s)@.push(c),
{
    s.push(c);
}

/// The source text handed to the GL compiler: the file's text followed by
/// a NUL terminator.
pub fn c_source(text: String) -> (r: String)
    ensures
        r@ == text@.push('\0'),
{
    let mut r = text;
    string_push(&mut r, '\0');
    r
}

/// Number of bytes of a compile log that the driver reported writing into
/// the `INFO_LOG_CAPACITY`-byte buffer.
pub fn info_log_len(reported: i32) -> (n: usize)
    requires
        0 <= reported <= INFO_LOG_CAPACITY,
    ensures
        n == reported,
{
    reported as usize
}

} // verus!
