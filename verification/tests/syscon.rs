use lib::drivers::syscon::bcm2835_firmware::{get_firmware, RpiFirmware, RpiFirmwareDriver};
use lib::drivers::syscon::property::{Message, Tag, TagIdentifier, RESPONSE_CODE_SUCCESS};
use lib::drivers::syscon::tag;
use lib::drivers::syscon::{get_rpi_firmware, register_rpi_firmware};
use lib::once_slot::OnceSlot;

fn answered(mut m: Message<14>, words: &[u32]) -> Message<14> {
    m.req_res_code = RESPONSE_CODE_SUCCESS;
    for (i, w) in words.iter().enumerate() {
        m.data[3 + i] = *w;
    }
    m
}

#[test]
fn request_message_layout() {
    let m = Message::<14>::new_get_firmware_revision();
    assert_eq!(m.size, 64);
    assert_eq!(m.req_res_code, 0);
    assert_eq!(&m.data[..5], &[tag::VIDEO_CORE_GET_FIRMWARE_REVISION, 4, 0, 0, tag::END_TAG]);
    assert!(m.data[5..].iter().all(|w| *w == 0));
    let m = Message::<14>::new_set_clock_rate(3, 600_000_000, 1);
    assert_eq!(&m.data[..7], &[tag::CLOCK_SET_CLOCK_RATE, 12, 0, 3, 600_000_000, 1, 0]);
    let t: Tag<2> = Tag::new(TagIdentifier(0x0001_0003));
    assert_eq!((t.identifier.0, t.value_buffer_size, t.req_res_code, t.value_buffer), (0x0001_0003, 8, 0, [0, 0]));
    let big = Message::<318>::new_get_command_line();
    assert_eq!(big.size, 320 * 4);
}

#[test]
fn property_exchange_checks() {
    assert_eq!(RpiFirmware::property_request(0x0010_0040), 0x0010_0048);
    let fw = RpiFirmware::new("/firmware".to_string());
    assert_eq!(fw.id(), "/firmware");
    assert_eq!(fw.property(0x48, 0x48, RESPONSE_CODE_SUCCESS), Ok(()));
    assert_eq!(fw.property(0x48, 0x49, RESPONSE_CODE_SUCCESS), Err(()));
    assert_eq!(fw.property(0x48, 0x48, 0x8000_0001), Err(()));
}

#[test]
fn decoded_responses() {
    let fw = RpiFirmware::new("/firmware".to_string());
    let r = answered(Message::<14>::new_get_firmware_revision(), &[0x5f0e_1a2b]);
    assert_eq!(fw.get_firmware_revision(&r), Ok(0x5f0e_1a2b));
    let r = answered(Message::<14>::new_get_board_serial(), &[0x89ab_cdef, 0x0123_4567]);
    assert_eq!(fw.get_board_serial(&r), Ok(0x0123_4567_89ab_cdef));
    let r = answered(Message::<14>::new_get_board_mac_address(), &[0x4433_22b8, 0x6655]);
    assert_eq!(fw.get_board_mac_address(&r), Ok([0xb8, 0x22, 0x33, 0x44, 0x55, 0x66]));
    let r = answered(Message::<14>::new_get_arm_memory(), &[0, 0x3b40_0000]);
    assert_eq!(fw.get_arm_memory(&r), Ok((0, 0x3b40_0000)));
    let r = answered(Message::<14>::new_get_dma_channels(), &[0x7ff5]);
    assert_eq!(fw.get_dma_channels(&r), Ok(0x7ff5));
    let unanswered = Message::<14>::new_get_board_model();
    assert_eq!(fw.get_board_model(&unanswered), Err(()));
    assert_eq!(fw.get_vc_memory(&unanswered), Err(()));
    assert_eq!(fw.get_board_revision(&unanswered), Err(()));
}

#[test]
fn command_line_up_to_nul() {
    let fw = RpiFirmware::new("/firmware".to_string());
    let mut m = Message::<318>::new_get_command_line();
    m.req_res_code = RESPONSE_CODE_SUCCESS;
    let text = b"console=tty1 quiet";
    let mut bytes = text.to_vec();
    bytes.push(0);
    bytes.push(b'x');
    while bytes.len() % 4 != 0 {
        bytes.push(0);
    }
    for (i, chunk) in bytes.chunks(4).enumerate() {
        m.data[3 + i] = u32::from_le_bytes([chunk[0], chunk[1], chunk[2], chunk[3]]);
    }
    assert_eq!(fw.get_command_line(&m), Ok("console=tty1 quiet".to_string()));
    m.data[3] = 0xff;
    assert_eq!(fw.get_command_line(&m), Err(()));
    m.req_res_code = 0;
    assert_eq!(fw.get_command_line(&m), Err(()));
}

#[test]
fn firmware_registration() {
    let mut slot: OnceSlot<RpiFirmware> = OnceSlot::new();
    assert!(get_firmware(&slot).is_none());
    assert!(slot.set(RpiFirmware::new("/fw".to_string())).is_ok());
    assert_eq!(get_firmware(&slot).unwrap().id(), "/fw");
    let mut sys: OnceSlot<u8> = OnceSlot::new();
    assert_eq!(register_rpi_firmware(&mut sys, 1), Ok(()));
    assert_eq!(register_rpi_firmware(&mut sys, 2), Err(()));
    assert_eq!(get_rpi_firmware(&sys), Some(&1));
    assert_eq!(RpiFirmwareDriver::new().compatible(), "raspberrypi,bcm2835-firmware");
}
