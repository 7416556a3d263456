use loon::theme::{color_channels, ColorChannels, EguiThemeAdapter};

#[test]
fn theme_colours_are_read() {
    assert_eq!(
        color_channels("#090B10"),
        ColorChannels { red: 9, green: 11, blue: 16, alpha: None }
    );
    assert_eq!(
        EguiThemeAdapter::color("#7DD3FC80"),
        ColorChannels { red: 0x7d, green: 0xd3, blue: 0xfc, alpha: Some(0x80) }
    );
    assert_eq!(
        color_channels("##e2e8f0"),
        ColorChannels { red: 0xe2, green: 0xe8, blue: 0xf0, alpha: None }
    );
    // pairs that are not hexadecimal read as 0, a leading plus is accepted
    assert_eq!(
        color_channels("#zz+F-1abc"),
        ColorChannels { red: 0, green: 15, blue: 0, alpha: None }
    );
}

#[test]
fn two_byte_characters_read_as_zero() {
    // the digits are eight bytes long: four channels
    assert_eq!(
        color_channels("#éé0a0b"),
        ColorChannels { red: 0, green: 0, blue: 10, alpha: Some(11) }
    );
    assert_eq!(
        color_channels("#0aé0b0c"),
        ColorChannels { red: 10, green: 0, blue: 11, alpha: Some(12) }
    );
}
