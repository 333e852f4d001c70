use cubulous::shader::{check_shader_code, ShaderError};

#[test]
fn whole_words_are_accepted_unchanged() {
    let code = vec![3u8, 2, 35, 7, 0, 0, 1, 0];
    assert_eq!(check_shader_code(8, code.clone()), Ok(code));
}

#[test]
fn partial_word_is_refused() {
    assert_eq!(check_shader_code(7, vec![0u8; 7]), Err(ShaderError::NotWordAligned));
}

#[test]
fn short_read_is_refused() {
    assert_eq!(check_shader_code(8, vec![0u8; 4]), Err(ShaderError::ShortRead));
}
