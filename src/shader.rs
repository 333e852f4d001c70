use vstd::prelude::*;

verus! {

/// Bytes per SPIR-V word.
pub const SPIRV_WORD_SIZE: u64 = 4;

#[derive(Clone, Copy, PartialEq, Eq, Debug, Structural)]
pub enum ShaderError {
    /// Fewer or more bytes were read than the file holds.
    ShortRead,
    /// The length is not a whole number of 32-bit words.
    NotWordAligned,
}

/// Accepts shader bytes read from a file of `file_size` bytes when all of the
/// file was read and its length is a whole number of 32-bit words; the bytes
/// are handed back as they are.
pub fn check_shader_code(file_size: u64, code: Vec<u8>) -> (r: Result<Vec<u8>, ShaderError>)
    ensures
        code@.len() != file_size ==> r matches Err(ShaderError::ShortRead),
        code@.len() == file_size && file_size % 4 != 0 ==> r matches Err(ShaderError::NotWordAligned),
        code@.len() == file_size && file_size % 4 == 0 ==> (r matches Ok(c) && c@ == code@),
{
    if code.len() as u64 != file_size {
        return Err(ShaderError::ShortRead);
    }
    if file_size % SPIRV_WORD_SIZE != 0 {
        return Err(ShaderError::NotWordAligned);
    }
    Ok(code)
}

} // verus!
