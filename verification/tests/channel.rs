use softplc::channel::{ChannelInput, TermChannel, TermError};

#[test]
fn channel_numbers_start_at_one() {
    assert_eq!(TermChannel::Ch1.number(), 1);
    assert_eq!(TermChannel::Ch8.number(), 8);
    assert_eq!(TermChannel::Ch16.number(), 16);
}

#[test]
fn channel_from_number_covers_one_to_sixteen() {
    assert_eq!(TermChannel::from_number(0), None);
    assert_eq!(TermChannel::from_number(17), None);
    assert_eq!(TermChannel::from_number(255), None);
    for n in 1u8..=16 {
        let c = TermChannel::from_number(n).expect("channel");
        assert_eq!(c.number(), n);
    }
    assert_eq!(TermChannel::from_number(11), Some(TermChannel::Ch11));
}

#[test]
fn channel_maps_to_offset_one_less() {
    for n in 1u8..=16 {
        let c = TermChannel::from_number(n).expect("channel");
        assert_eq!(ChannelInput::Channel(c).offset(), (n - 1) as usize);
        assert_eq!(ChannelInput::Channel(c).position(), n as usize);
        assert_eq!(ChannelInput::Channel(c).offset(), ChannelInput::Index(n - 1).offset());
    }
}

#[test]
fn index_is_its_own_offset() {
    assert_eq!(ChannelInput::Index(0).offset(), 0);
    assert_eq!(ChannelInput::Index(97).offset(), 97);
    assert_eq!(ChannelInput::Index(255).offset(), 255);
    assert_eq!(ChannelInput::Index(255).position(), 256);
}

#[test]
fn error_messages() {
    assert_eq!(TermError::ChannelRequired.message(), "Can only pass None for Enby terms");
    assert_eq!(
        TermError::WholeReadOnly.message(),
        "Must pass channel input param as None for Enby terms"
    );
    assert_eq!(
        TermError::InvalidChannel.message(),
        "Invalid channel. Can only specify Channels 1-4."
    );
    assert_eq!(TermError::NotWritable.message(), "Terminal has no output buffer");
    assert_eq!(
        TermError::OutOfBounds(17).message(),
        "Error reading channel 17: Index out of bounds"
    );
}
