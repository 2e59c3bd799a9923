use lepton::lepton_command::{CommandType, LepCommand, Module};

const COMMAND_TYPE_MASK: u16 = 0x0003;

#[test]
fn get_agc_policy_uses_get_command_type() {
    let command_type = LepCommand::get_agc_policy().raw_command_id() & COMMAND_TYPE_MASK;
    assert_eq!(command_type, 0);
}

#[test]
fn getters_near_agc_policy_use_get_command_type() {
    let get_command_ids = [
        LepCommand::get_agc_enable().raw_command_id(),
        LepCommand::get_agc_policy().raw_command_id(),
        LepCommand::get_agc_roi().raw_command_id(),
        LepCommand::get_agc_histogram_statistics().raw_command_id(),
        LepCommand::get_oem_phase_delay().raw_command_id(),
        LepCommand::get_oem_gpio_mode().raw_command_id(),
        LepCommand::get_oem_video_output_source().raw_command_id(),
        LepCommand::get_oem_video_output_source_constant().raw_command_id(),
        LepCommand::get_sys_telemetry_mode().raw_command_id(),
        LepCommand::get_oem_video_output_format().raw_command_id(),
    ];

    for command_id in get_command_ids {
        assert_eq!(command_id & COMMAND_TYPE_MASK, 0);
    }
}

#[test]
fn command_ids_have_their_documented_values() {
    assert_eq!(LepCommand::get_agc_enable().raw_command_id(), 0x0100);
    assert_eq!(LepCommand::set_agc_enable().raw_command_id(), 0x0101);
    assert_eq!(LepCommand::get_sys_telemetry_mode().raw_command_id(), 0x0218);
    assert_eq!(LepCommand::set_sys_telemetry_mode().raw_command_id(), 0x0219);
    assert_eq!(LepCommand::get_oem_video_output_source().raw_command_id(), 0x482C);
    assert_eq!(LepCommand::set_oem_video_output_source().raw_command_id(), 0x482D);
    assert_eq!(
        LepCommand::set_oem_video_output_source_constant().raw_command_id(),
        0x483D
    );
    assert_eq!(LepCommand::set_oem_phase_delay().raw_command_id(), 0x4859);
}

#[test]
fn command_bytes_are_big_endian() {
    assert_eq!(LepCommand::set_oem_gpio_mode().get_command_id(), [0x48, 0x55]);
    assert_eq!(LepCommand::set_oem_gpio_mode().get_data_length(), [0x00, 0x01]);
    assert_eq!(LepCommand::get_agc_roi().get_data_length(), [0x00, 0x04]);
}

#[test]
fn module_bases_and_command_types() {
    assert_eq!(Module::AGC.base(), 0x100);
    assert_eq!(Module::SYS.base(), 0x200);
    assert_eq!(Module::VID.base(), 0x300);
    assert_eq!(Module::OEM.base(), 0x800);
    assert_eq!(Module::RAD.base(), 0xE00);
    assert_eq!(CommandType::Get.code(), 0);
    assert_eq!(CommandType::Put.code(), 1);
    assert_eq!(CommandType::Run.code(), 2);
    assert_eq!(CommandType::Invalid.code(), 3);
}

#[test]
fn module_and_command_type_add_to_a_number() {
    assert_eq!(Module::OEM + 0x2C, 0x82C);
    assert_eq!(Module::AGC + 0, 0x100);
    assert_eq!(CommandType::Put + 0x58, 0x59);
    assert_eq!(CommandType::Get + 7, 7);
    assert_eq!(Module::SYS + (CommandType::Run + 0x18), 0x21A);
}
