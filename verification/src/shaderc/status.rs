//! What the runtime makes of the status codes and error buffers that the
//! shader compiler's C interface returns.
use vstd::prelude::*;
use crate::error::GpuError;
use crate::shaderc::text::chars_of;
use crate::shaderc::text::decimal_digits;
use crate::shaderc::text::decimal_of;
use crate::shaderc::text::string_from_chars;

verus! {

/// The status the compiler's C functions return on success.
pub const STATUS_SUCCESS: i32 = 0;

/// The decimal text of an integer, with a minus sign when it is negative.
pub open spec fn int_text(x: int) -> Seq<char> {
    if x < 0 { seq!['-'] + decimal_digits((-x) as nat) } else { decimal_digits(x as nat) }
}

fn push_str(out: &mut Vec<char>, s: &str)
    ensures
        final(out)@ == old(out)@ + s@,
{
    let cs = chars_of(s);
    let mut i: usize = 0;
    while i < cs.len()
        invariant
            i <= cs@.len(),
            cs@ == s@,
            out@ == old(out)@ + cs@.take(i as int),
        decreases cs@.len() - i,
    {
        out.push(cs[i]);
        i = i + 1;
        assert(cs@.take(i as int) == cs@.take(i - 1).push(cs@[i - 1]));
    }
    assert(cs@.take(i as int) =~= cs@);
}

fn push_chars(out: &mut Vec<char>, s: &Vec<char>)
    ensures
        final(out)@ == old(out)@ + s@,
{
    let mut i: usize = 0;
    while i < s.len()
        invariant
            i <= s@.len(),
            out@ == old(out)@ + s@.take(i as int),
        decreases s@.len() - i,
    {
        out.push(s[i]);
        i = i + 1;
        assert(s@.take(i as int) == s@.take(i - 1).push(s@[i - 1]));
    }
    assert(s@.take(i as int) =~= s@);
}

fn push_int(out: &mut Vec<char>, x: i32)
    ensures
        final(out)@ == old(out)@ + int_text(x as int),
{
    if x < 0 {
        out.push('-');
        let magnitude: u32 = if x == i32::MIN { 2147483648u32 } else { (-x) as u32 };
        let digits = decimal_of(magnitude as u64);
        let ghost before = out@;
        push_chars(out, &digits);
        assert(out@ =~= old(out)@ + int_text(x as int));
    } else {
        let digits = decimal_of(x as u64);
        push_chars(out, &digits);
    }
}

/// What the standard library reads from bytes as UTF-8, replacing each
/// invalid sequence by U+FFFD (`String::from_utf8_lossy`).
pub uninterp spec fn utf8_lossy(bytes: Seq<u8>) -> Seq<char>;

/// Decodes bytes as UTF-8 with `String::from_utf8_lossy`, whose text
/// depends on the bytes alone. Every byte is either part of a decoded
/// character or of a sequence replaced by U+FFFD, so bytes that are not
/// empty give a text that is not empty.
#[verifier::external_body]
fn decode_lossy(bytes: &[u8]) -> (s: String)
    ensures
        s@ == utf8_lossy(bytes@),
        bytes@.len() > 0 ==> s@.len() > 0,
{
    String::from_utf8_lossy(bytes).into_owned()
}

/// The bytes of a C string stored in a buffer: up to the first NUL, or the
/// whole buffer when there is none.
pub open spec fn c_string(buf: Seq<u8>) -> Seq<u8> {
    if exists|i: int| 0 <= i < buf.len() && buf[i] == 0 {
        buf.take(choose|i: int| 0 <= i < buf.len() && buf[i] == 0 && forall|j: int| 0 <= j < i ==> buf[j] != 0)
    } else {
        buf
    }
}

/// The message in an error buffer that the compiler filled: its C string,
/// decoded.
pub open spec fn buffer_message(buf: Seq<u8>) -> Seq<char> {
    if c_string(buf).len() == 0 { Seq::empty() } else { utf8_lossy(c_string(buf)) }
}

/// The message in an error buffer that the compiler filled.
pub fn message_of_buffer(buf: &[u8]) -> (s: String)
    ensures
        s@ == buffer_message(buf@),
        s@.len() > 0 <==> c_string(buf@).len() > 0,
{
    let n = crate::context::device_name_len(buf);
    let bytes = vstd::slice::slice_subrange(buf, 0, n);
    proof {
        if n < buf@.len() {
            assert(buf@[n as int] == 0);
            let k = choose|i: int| 0 <= i < buf@.len() && buf@[i] == 0 && forall|j: int| 0 <= j < i ==> buf@[j] != 0;
            assert(k == n) by {
                if k < n {
                    assert(buf@[k] != 0);
                }
                if k > n {
                    assert(buf@[n as int] != 0);
                }
            }
            assert(bytes@ =~= c_string(buf@));
        } else {
            assert(bytes@ =~= buf@);
            assert(c_string(buf@) == buf@);
        }
    }
    if n == 0 {
        String::new()
    } else {
        decode_lossy(bytes)
    }
}

/// The detail of a failed preprocessing or unrolling step.
pub open spec fn status_detail(ret: int, msg: Seq<char>) -> Seq<char> {
    if msg.len() == 0 {
        "operation failed with code "@ + int_text(ret)
    } else {
        "operation failed ("@ + int_text(ret) + "): "@ + msg
    }
}

/// The error of a failed preprocessing or unrolling step, from the status
/// it returned and the error buffer it filled.
pub fn error_from_status(ret: i32, error_buf: &[u8]) -> (e: GpuError)
    ensures
        e matches GpuError::Shader(m) && m@ == status_detail(ret as int, buffer_message(error_buf@)),
        c_string(error_buf@).len() == 0 ==> (e matches GpuError::Shader(m)
            && m@ == "operation failed with code "@ + int_text(ret as int)),
        c_string(error_buf@).len() > 0 ==> (e matches GpuError::Shader(m)
            && m@ == "operation failed ("@ + int_text(ret as int) + "): "@ + utf8_lossy(c_string(error_buf@))),
{
    let msg = message_of_buffer(error_buf);
    let mut out: Vec<char> = Vec::new();
    if msg.as_str().unicode_len() == 0 {
        push_str(&mut out, "operation failed with code ");
        push_int(&mut out, ret);
    } else {
        push_str(&mut out, "operation failed (");
        push_int(&mut out, ret);
        push_str(&mut out, "): ");
        push_str(&mut out, msg.as_str());
    }
    GpuError::Shader(string_from_chars(&out))
}

/// The detail of a failed compilation, from its status and the compiler's
/// message (which may be empty).
pub open spec fn compile_detail(ret: int, msg: Seq<char>) -> Seq<char> {
    if msg.len() == 0 {
        "compilation failed with code "@ + int_text(ret)
    } else {
        "compilation failed("@ + int_text(ret) + "): "@ + msg
    }
}

/// The outcome of a compilation, from the status it returned and the
/// message the compiler wrote: the message (warnings, if any) on success,
/// the error otherwise.
pub fn compile_outcome(ret: i32, error_buf: &[u8]) -> (r: Result<String, GpuError>)
    ensures
        ret == STATUS_SUCCESS ==> (r matches Ok(w) && w@ == buffer_message(error_buf@)),
        ret != STATUS_SUCCESS ==> (r matches Err(GpuError::Shader(m))
            && m@ == compile_detail(ret as int, buffer_message(error_buf@))),
        ret != STATUS_SUCCESS && c_string(error_buf@).len() == 0 ==> (r matches Err(GpuError::Shader(m))
            && m@ == "compilation failed with code "@ + int_text(ret as int)),
        ret != STATUS_SUCCESS && c_string(error_buf@).len() > 0 ==> (r matches Err(GpuError::Shader(m))
            && m@ == "compilation failed("@ + int_text(ret as int) + "): "@ + utf8_lossy(c_string(error_buf@))),
{
    let msg = message_of_buffer(error_buf);
    if ret == STATUS_SUCCESS {
        return Ok(msg);
    }
    let mut out: Vec<char> = Vec::new();
    if msg.as_str().unicode_len() == 0 {
        push_str(&mut out, "compilation failed with code ");
        push_int(&mut out, ret);
    } else {
        push_str(&mut out, "compilation failed(");
        push_int(&mut out, ret);
        push_str(&mut out, "): ");
        push_str(&mut out, msg.as_str());
    }
    Err(GpuError::Shader(string_from_chars(&out)))
}

/// The error of a failed compilation without an error buffer.
pub fn compilation_error(ret: i32) -> (e: GpuError)
    ensures
        e matches GpuError::Shader(m) && m@ == "compilation failed with code "@ + int_text(ret as int),
{
    let mut out: Vec<char> = Vec::new();
    push_str(&mut out, "compilation failed with code ");
    push_int(&mut out, ret);
    GpuError::Shader(string_from_chars(&out))
}

/// Which argument of the compiler's C interface a text is passed as.
#[derive(PartialEq, Eq, Structural, Clone, Copy, Debug)]
pub enum CArg {
    Source,
    SourcePath,
    IncludeDirs,
    Defines,
}

pub open spec fn nul_message(what: CArg) -> Seq<char> {
    match what {
        CArg::Source => "source contains null byte"@,
        CArg::SourcePath => "source_path contains null byte"@,
        CArg::IncludeDirs => "include_dirs contains null byte"@,
        CArg::Defines => "defines contains null byte"@,
    }
}

/// Checks that a text can be passed as a C string: it holds no NUL
/// character.
pub fn check_c_string(s: &str, what: CArg) -> (r: Result<(), GpuError>)
    ensures
        r is Ok <==> !s@.contains('\0'),
        r matches Err(e) ==> e matches GpuError::Shader(m) && m@ == nul_message(what),
{
    let cs = chars_of(s);
    let mut i: usize = 0;
    while i < cs.len()
        invariant
            i <= cs@.len(),
            cs@ == s@,
            forall|j: int| 0 <= j < i ==> cs@[j] != '\0',
        decreases cs@.len() - i,
    {
        if cs[i] == '\0' {
            assert(s@[i as int] == '\0');
            let msg = match what {
                CArg::Source => "source contains null byte",
                CArg::SourcePath => "source_path contains null byte",
                CArg::IncludeDirs => "include_dirs contains null byte",
                CArg::Defines => "defines contains null byte",
            };
            return Err(GpuError::Shader(string_from_chars(&chars_of(msg))));
        }
        i = i + 1;
    }
    Ok(())
}

} // verus!
