use launchpad::commands::{
    create_output_buffer, initiate_set_display_zone_image_command_factory, ClearAllImages,
    ClearDisplayZoneImage, Command, InitiateDisplayZoneImage, InitiateSetBackgroundImage,
    Payload, Refresh, SendImageDataPacket, SetBrightness, WakeScreen,
};
use launchpad::display_zones::DisplayZones;

const WAKE_SCREEN: [u8; 9] = *b"\0CRT\0\0DIS";
const SET_BRIGHTNESS: [u8; 11] = *b"\0CRT\0\0LIG\0\0";
const REFRESH: [u8; 9] = *b"\0CRT\0\0STP";
const INITIATE_SET_BACKGROUND_IMAGE: [u8; 9] = *b"\0CRT\0\0LOG";
const INITIATE_SET_DISPLAY_ZONE_IMAGE: [u8; 9] = *b"\0CRT\0\0BAT";

#[test]
fn fills_in_lower_bytes_happy_path() {
    let output = create_output_buffer::<513>(&[0x09, 0x90]);
    let mut to_check = [0; 513];

    to_check[0] = 0x09;
    to_check[1] = 0x90;

    assert_eq!(output, to_check);
}

#[test]
fn truncates_oversized_message() {
    let message = [99u8; 6969];
    let output = create_output_buffer::<10>(&message);

    assert_eq!(output, message[0..10]);
}

#[test]
fn correct_refresh_payload() {
    let payload = Refresh::generate(&Refresh);
    assert_eq!(payload, create_output_buffer(&REFRESH))
}

#[test]
fn correct_wake_screen_payload() {
    let payload = WakeScreen::generate(&WakeScreen);
    assert_eq!(payload, create_output_buffer(&WAKE_SCREEN))
}

#[test]
fn correct_set_brightness_payload() {
    let payload = SetBrightness::generate(&SetBrightness::new(30));

    let mut message_buffer = [0; 12];
    message_buffer[..11].copy_from_slice(&SET_BRIGHTNESS);

    message_buffer[11] = 30;

    assert_eq!(payload, create_output_buffer(&message_buffer))
}

#[test]
fn correct_initiate_set_background_image_payload() {
    let payload = InitiateSetBackgroundImage::generate(&InitiateSetBackgroundImage::new(0x20u32));

    let mut message_buffer = [0; 14];
    message_buffer[..9].copy_from_slice(&INITIATE_SET_BACKGROUND_IMAGE);
    message_buffer[9] = 0x00;
    message_buffer[10] = 0x00;
    message_buffer[11] = 0x00;
    message_buffer[12] = 0x20;
    message_buffer[13] = 0x01;

    assert_eq!(payload, create_output_buffer(&message_buffer))
}

#[test]
fn correct_initiate_set_display_zone_image_payload() {
    let payload = InitiateDisplayZoneImage::generate(&InitiateDisplayZoneImage::new(
        0x20u32,
        DisplayZones::Button7,
    ));

    let mut message_buffer = [0; 14];
    message_buffer[..9].copy_from_slice(&INITIATE_SET_DISPLAY_ZONE_IMAGE);
    message_buffer[9] = 0x00;
    message_buffer[10] = 0x00;
    message_buffer[11] = 0x00;
    message_buffer[12] = 0x20;
    message_buffer[13] = 0x07;

    assert_eq!(payload, create_output_buffer(&message_buffer))
}

#[test]
fn brightness_buffer_bytes_are_exact() {
    let payload = SetBrightness::new(30).generate();
    assert_eq!(payload.len(), 513);
    assert_eq!(&payload[0..11], &[0x00, 0x43, 0x52, 0x54, 0x00, 0x00, 0x4C, 0x49, 0x47, 0x00, 0x00]);
    assert_eq!(payload[11], 0x1E);
    assert!(payload[12..].iter().all(|&b| b == 0));
}

#[test]
fn out_of_range_brightness_is_sent_as_zero() {
    assert_eq!(SetBrightness::new(101).generate()[11], 0);
    assert_eq!(SetBrightness::new(255).generate()[11], 0);
    assert_eq!(SetBrightness::new(100).generate()[11], 100);
    assert_eq!(SetBrightness::new(0).generate()[11], 0);
}

#[test]
fn initiate_zone_buffer_carries_size_and_zone() {
    let payload = InitiateDisplayZoneImage::new(0x20, DisplayZones::Button7).generate();
    assert_eq!(payload.len(), 1025);
    assert_eq!(&payload[0..6], b"\0CRT\0\0");
    assert_eq!(&payload[9..13], &[0x00, 0x00, 0x00, 0x20]);
    assert_eq!(payload[13], 0x07);
    assert!(payload[14..].iter().all(|&b| b == 0));
}

#[test]
fn initiate_background_size_is_big_endian() {
    let payload = InitiateSetBackgroundImage::new(0x0102_0304).generate();
    assert_eq!(&payload[9..14], &[0x01, 0x02, 0x03, 0x04, 0x01]);
}

#[test]
fn clear_commands_name_the_zone() {
    let all = ClearAllImages.generate();
    assert_eq!(&all[0..13], b"\0CRT\0\0CLE\0\0\0\xFF");
    let one = ClearDisplayZoneImage::new(DisplayZones::Touchscreen2).generate();
    assert_eq!(&one[0..13], b"\0CRT\0\0CLE\0\0\0\x02");
    assert!(one[13..].iter().all(|&b| b == 0));
}

#[test]
fn image_packet_follows_a_zero_byte() {
    let mut packet = [0u8; 1024];
    for (i, b) in packet.iter_mut().enumerate() {
        *b = (i % 251) as u8 + 1;
    }
    let payload = SendImageDataPacket::new(packet).generate();
    assert_eq!(payload[0], 0);
    assert_eq!(&payload[1..], &packet[..]);
}

#[test]
fn command_hands_its_report_to_the_writer() {
    let command = initiate_set_display_zone_image_command_factory(5, DisplayZones::Button1);
    let written = command.execute(|buf: &[u8; 1025]| buf.to_vec());
    assert_eq!(written.len(), 1025);
    assert_eq!(written[12], 5);
    assert_eq!(written[13], 11);
}
