use asimov_image_module::dims::{SizeError, parse_dimensions};

fn parse(s: &str) -> Result<(u32, u32), SizeError> {
    parse_dimensions(&s.chars().collect::<Vec<char>>())
}

#[test]
fn plain_sizes_parse() {
    assert_eq!(parse("1920x1080"), Ok((1920, 1080)));
    assert_eq!(parse("160x120"), Ok((160, 120)));
    assert_eq!(parse("7680x4320"), Ok((7680, 4320)));
}

#[test]
fn multiplication_sign_and_spaces_are_accepted() {
    assert_eq!(parse("1920\u{d7}1080"), Ok((1920, 1080)));
    assert_eq!(parse("  1920 x 1080  "), Ok((1920, 1080)));
    assert_eq!(parse("\t640x480\t"), Ok((640, 480)));
}

#[test]
fn leading_zeros_are_plain_decimal() {
    assert_eq!(parse("0640x0480"), Ok((640, 480)));
}

#[test]
fn leading_plus_parses_as_unsigned() {
    assert_eq!(parse("+640x480"), Ok((640, 480)));
    assert_eq!(parse("640x+480"), Ok((640, 480)));
    assert_eq!(parse(" +640 x +480 "), Ok((640, 480)));
    // A sign alone, a doubled sign, or a trailing sign is no number.
    assert_eq!(parse("+x480"), Err(SizeError::Width));
    assert_eq!(parse("++640x480"), Err(SizeError::Width));
    assert_eq!(parse("640+x480"), Err(SizeError::Width));
}

#[test]
fn unicode_whitespace_is_trimmed() {
    // No-break space, em space, and ideographic space around the parts.
    assert_eq!(parse("\u{a0}640\u{2003}x\u{3000}480\u{a0}"), Ok((640, 480)));
    assert_eq!(parse("\u{b}640x480\u{c}"), Ok((640, 480)));
}

#[test]
fn malformed_shapes_are_format_errors() {
    assert_eq!(parse("1920"), Err(SizeError::Format));
    assert_eq!(parse("1920x1080x3"), Err(SizeError::Format));
    assert_eq!(parse("x1080"), Err(SizeError::Format));
    assert_eq!(parse("1920x"), Err(SizeError::Format));
    assert_eq!(parse(""), Err(SizeError::Format));
    assert_eq!(parse("   "), Err(SizeError::Format));
    assert_eq!(parse("x"), Err(SizeError::Format));
}

#[test]
fn non_numbers_name_the_failing_part() {
    assert_eq!(parse("abcx1080"), Err(SizeError::Width));
    assert_eq!(parse("1920xtall"), Err(SizeError::Height));
    assert_eq!(parse("19 20x1080"), Err(SizeError::Width));
    assert_eq!(parse("-640x480"), Err(SizeError::Width));
    assert_eq!(parse("99999999999x1080"), Err(SizeError::Width));
    assert_eq!(parse("1920x99999999999"), Err(SizeError::Height));
}

#[test]
fn out_of_range_sizes_are_refused() {
    assert_eq!(parse("159x1080"), Err(SizeError::WidthRange));
    assert_eq!(parse("7681x1080"), Err(SizeError::WidthRange));
    assert_eq!(parse("1920x119"), Err(SizeError::HeightRange));
    assert_eq!(parse("1920x4321"), Err(SizeError::HeightRange));
    // The width is judged before the height.
    assert_eq!(parse("8000x8000"), Err(SizeError::WidthRange));
}
