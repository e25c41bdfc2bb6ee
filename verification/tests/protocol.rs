use glass::state::Mu1603Mode;
use glass::usb::{
    null_key_commands, program_values, request_type, select_values, sensor_program_commands,
    set_analog_gain_commands, set_exposure_commands, start_stream_commands, stop_stream_commands,
    Command, Direction, Recipient, RequestType, Transfer,
};

#[test]
fn request_type_packs_direction_type_and_recipient() {
    assert_eq!(request_type(Direction::In, RequestType::Vendor, Recipient::Device), 0xc0);
    assert_eq!(request_type(Direction::Out, RequestType::Vendor, Recipient::Device), 0x40);
    assert_eq!(request_type(Direction::Out, RequestType::Standard, Recipient::Device), 0x00);
    assert_eq!(request_type(Direction::In, RequestType::Standard, Recipient::Device), 0x80);
    assert_eq!(request_type(Direction::In, RequestType::Class, Recipient::Interface), 0xa1);
    assert_eq!(request_type(Direction::Out, RequestType::Reserved, Recipient::Other), 0x63);
    assert_eq!(request_type(Direction::Out, RequestType::Class, Recipient::Endpoint), 0x22);
}

#[test]
fn request_type_agrees_with_the_usb_stack() {
    assert_eq!(
        request_type(Direction::In, RequestType::Vendor, Recipient::Device),
        rusb::request_type(rusb::Direction::In, rusb::RequestType::Vendor, rusb::Recipient::Device)
    );
    assert_eq!(
        request_type(Direction::Out, RequestType::Vendor, Recipient::Device),
        rusb::request_type(
            rusb::Direction::Out,
            rusb::RequestType::Vendor,
            rusb::Recipient::Device
        )
    );
    assert_eq!(
        request_type(Direction::In, RequestType::Class, Recipient::Endpoint),
        rusb::request_type(
            rusb::Direction::In,
            rusb::RequestType::Class,
            rusb::Recipient::Endpoint
        )
    );
    assert_eq!(
        request_type(Direction::Out, RequestType::Reserved, Recipient::Other),
        rusb::request_type(
            rusb::Direction::Out,
            rusb::RequestType::Reserved,
            rusb::Recipient::Other
        )
    );
}

#[test]
fn vendor_read_swaps_index_and_value_into_the_setup_packet() {
    let cmd = Command::VenRead { req: 0x0a, idx: 0xfeff, val: 0x0001, len: 2 };
    assert_eq!(
        cmd.transfer(false),
        Transfer::Read { request_type: 0xc0, request: 0x0a, value: 0x0001, index: 0xfeff, len: 2 }
    );
    assert_eq!(cmd.transfer(true), cmd.transfer(false));
}

#[test]
fn vendor_write_has_no_data_stage() {
    let cmd = Command::VenWrite { req: 0x01, idx: 0x000f, val: 0x0003 };
    assert_eq!(
        cmd.transfer(false),
        Transfer::Write { request_type: 0x40, request: 0x01, value: 0x0003, index: 0x000f }
    );
}

#[test]
fn system_command_reads_one_byte() {
    let cmd = Command::System { idx: 0x8000, val: 0x060c };
    assert_eq!(
        cmd.transfer(false),
        Transfer::Read { request_type: 0xc0, request: 0x0b, value: 0x060c, index: 0x8000, len: 1 }
    );
}

#[test]
fn sensor_command_reads_back_from_0x1100() {
    let cmd = Command::Sensor { idx: 0x1064, val: 0x000a };
    assert_eq!(
        cmd.transfer(false),
        Transfer::Read { request_type: 0xc0, request: 0x0b, value: 0x000a, index: 0x1064, len: 1 }
    );
    assert_eq!(
        cmd.transfer(true),
        Transfer::Read { request_type: 0xc0, request: 0x0b, value: 0x000a, index: 0x1100, len: 1 }
    );
}

#[test]
fn sleep_command_is_a_pause() {
    assert_eq!(Command::Sleep { millis: 20 }.transfer(false), Transfer::Sleep { millis: 20 });
}

#[test]
fn null_key_is_one_read_of_two_bytes() {
    assert_eq!(
        null_key_commands(),
        vec![Command::VenRead { req: 0x16, idx: 0x0000, val: 0x0000, len: 2 }]
    );
}

#[test]
fn exposure_sequence_sets_four_registers() {
    assert_eq!(
        set_exposure_commands(0x000a, 0x0cbd),
        vec![
            Command::Sensor { idx: 0x1063, val: 0x0000 },
            Command::Sensor { idx: 0x1064, val: 0x000a },
            Command::System { idx: 0x4000, val: 0x0000 },
            Command::System { idx: 0x5000, val: 0x0cbd },
        ]
    );
}

#[test]
fn gain_sequence_sets_one_register() {
    assert_eq!(
        set_analog_gain_commands(0x610c),
        vec![Command::Sensor { idx: 0x1061, val: 0x610c }]
    );
}

#[test]
fn sensor_program_sequence_is_the_fixed_table() {
    let expected = vec![
        Command::Sensor { idx: 0x1008, val: 0x4299 },
        Command::Sensor { idx: 0x100f, val: 0x7fff },
        Command::Sensor { idx: 0x1001, val: 0x0030 },
        Command::Sensor { idx: 0x1002, val: 0x0003 },
        Command::Sensor { idx: 0x1003, val: 0x07e9 },
        Command::Sensor { idx: 0x1000, val: 0x0003 },
        Command::Sensor { idx: 0x1004, val: 0x0083 },
        Command::Sensor { idx: 0x1006, val: 0x11dc },
        Command::Sensor { idx: 0x1009, val: 0x02c0 },
        Command::Sensor { idx: 0x1005, val: 0x0001 },
        Command::Sensor { idx: 0x1007, val: 0x7fff },
        Command::Sensor { idx: 0x100a, val: 0x0000 },
        Command::Sensor { idx: 0x100b, val: 0x0100 },
        Command::Sensor { idx: 0x100c, val: 0x0000 },
        Command::Sensor { idx: 0x100d, val: 0x2090 },
        Command::Sensor { idx: 0x100e, val: 0x0103 },
        Command::Sensor { idx: 0x1010, val: 0x0000 },
        Command::Sensor { idx: 0x1011, val: 0x0000 },
        Command::Sleep { millis: 5 },
        Command::Sensor { idx: 0x1000, val: 0x0053 },
        Command::Sensor { idx: 0x1008, val: 0x0298 },
        Command::Sleep { millis: 5 },
    ];
    assert_eq!(sensor_program_commands(0x0083, 0x11dc), expected);
}

#[test]
fn only_two_program_values_depend_on_the_mode() {
    let a = sensor_program_commands(0x0087, 0x1104);
    let b = sensor_program_commands(0x0083, 0x11dc);
    assert_eq!(a.len(), b.len());
    let differing: Vec<usize> = (0..a.len()).filter(|i| a[*i] != b[*i]).collect();
    assert_eq!(differing, vec![6, 7]);
    assert_eq!(a[6], Command::Sensor { idx: 0x1004, val: 0x0087 });
    assert_eq!(a[7], Command::Sensor { idx: 0x1006, val: 0x1104 });
}

#[test]
fn mode_values_are_the_recorded_ones() {
    assert_eq!(program_values(Mu1603Mode::Mode0), (0x0087, 0x1104));
    assert_eq!(program_values(Mu1603Mode::Mode1), (0x0083, 0x11dc));
    assert_eq!(program_values(Mu1603Mode::Mode2), (0x0083, 0x11dc));
    assert_eq!(select_values(Mu1603Mode::Mode0), (0x0000, 0x0002, 0x09b0));
    assert_eq!(select_values(Mu1603Mode::Mode1), (0x0001, 0x0003, 0x060c));
    assert_eq!(select_values(Mu1603Mode::Mode2), (0x0002, 0x0004, 0x0666));
}

#[test]
fn start_sequence_has_its_seven_parts_in_order() {
    let seq = start_stream_commands(Mu1603Mode::Mode1);
    assert_eq!(seq.len(), 78);
    // 1. the key
    assert_eq!(seq[0], Command::VenRead { req: 0x16, idx: 0, val: 0, len: 2 });
    // 2. enable, disable, enable
    assert_eq!(seq[1], Command::VenWrite { req: 0x01, idx: 0x000f, val: 1 });
    assert_eq!(seq[2], Command::VenWrite { req: 0x01, idx: 0x000f, val: 0 });
    assert_eq!(seq[3], Command::VenWrite { req: 0x01, idx: 0x000f, val: 1 });
    // 3. the probe reads
    assert_eq!(seq[4], Command::VenRead { req: 0x0a, idx: 0xffff, val: 0, len: 2 });
    assert_eq!(seq[5], Command::VenRead { req: 0x0a, idx: 0xffff, val: 0, len: 2 });
    assert_eq!(seq[6], Command::VenRead { req: 0x0a, idx: 0xfeff, val: 0, len: 2 });
    assert_eq!(seq[7], Command::VenRead { req: 0x0a, idx: 0xfeff, val: 0, len: 2 });
    // 4. the sensor programming, which starts the sensor in mode 0
    assert_eq!(&seq[8..30], &sensor_program_commands(0x0087, 0x1104)[..]);
    assert_eq!(
        &seq[30..39],
        &[
            Command::System { idx: 0x1200, val: 0x0001 },
            Command::Sleep { millis: 20 },
            Command::System { idx: 0x2000, val: 0x0000 },
            Command::System { idx: 0x1200, val: 0x0002 },
            Command::Sleep { millis: 20 },
            Command::System { idx: 0x0200, val: 0x0000 },
            Command::System { idx: 0x0a00, val: 0x0001 },
            Command::System { idx: 0x0a00, val: 0x0000 },
            Command::Sleep { millis: 20 },
        ]
    );
    // 5. the setup of the requested mode
    assert_eq!(&seq[39..61], &sensor_program_commands(0x0083, 0x11dc)[..]);
    assert_eq!(
        &seq[61..66],
        &[
            Command::Sensor { idx: 0x103b, val: 0x0000 },
            Command::System { idx: 0x2000, val: 0x0001 },
            Command::System { idx: 0x1200, val: 0x0003 },
            Command::Sleep { millis: 10 },
            Command::System { idx: 0x8000, val: 0x060c },
        ]
    );
    // 6. exposure and gain at their defaults
    assert_eq!(&seq[66..70], &set_exposure_commands(0x000a, 0x0cbd)[..]);
    assert_eq!(seq[70], Command::System { idx: 0x0a00, val: 0x0001 });
    assert_eq!(&seq[71..75], &set_exposure_commands(0x000a, 0x0cbd)[..]);
    assert_eq!(seq[75], Command::Sensor { idx: 0x1061, val: 0x610c });
    // 7. arm streaming and let the device settle
    assert_eq!(seq[76], Command::VenWrite { req: 0x01, idx: 0x000f, val: 0x0003 });
    assert_eq!(seq[77], Command::Sleep { millis: 10 });
}

#[test]
fn start_sequences_differ_in_the_mode_setup_only() {
    let m0 = start_stream_commands(Mu1603Mode::Mode0);
    let m1 = start_stream_commands(Mu1603Mode::Mode1);
    let m2 = start_stream_commands(Mu1603Mode::Mode2);
    assert_eq!(m0.len(), 78);
    assert_eq!(m2.len(), 78);
    assert_eq!(&m0[..39], &m1[..39]);
    assert_eq!(&m0[66..], &m1[66..]);
    assert_eq!(&m0[39..61], &sensor_program_commands(0x0087, 0x1104)[..]);
    assert_eq!(
        &m0[61..66],
        &[
            Command::Sensor { idx: 0x103b, val: 0x0000 },
            Command::System { idx: 0x2000, val: 0x0000 },
            Command::System { idx: 0x1200, val: 0x0002 },
            Command::Sleep { millis: 10 },
            Command::System { idx: 0x8000, val: 0x09b0 },
        ]
    );
    assert_eq!(&m2[39..61], &sensor_program_commands(0x0083, 0x11dc)[..]);
    assert_eq!(
        &m2[61..66],
        &[
            Command::Sensor { idx: 0x103b, val: 0x0000 },
            Command::System { idx: 0x2000, val: 0x0002 },
            Command::System { idx: 0x1200, val: 0x0004 },
            Command::Sleep { millis: 10 },
            Command::System { idx: 0x8000, val: 0x0666 },
        ]
    );
}

#[test]
fn stop_sequence_disables_and_flushes() {
    assert_eq!(
        stop_stream_commands(),
        vec![
            Command::System { idx: 0x0a00, val: 0x0000 },
            Command::Sensor { idx: 0x1000, val: 0x0000 },
            Command::VenWrite { req: 0x01, idx: 0x000f, val: 0x0000 },
            Command::VenRead { req: 0x17, idx: 0x0000, val: 0x0000, len: 4 },
            Command::Sleep { millis: 10 },
        ]
    );
}
