use relay_board_rs_485::device::relay::{
    ActionCommand, ActionCommandsEnum, StatusCommand, StatusCommandResponse,
};
use relay_board_rs_485::protocol::crc;

#[test]
fn lib_test_test_crc() {
    let command: [u8; 6] = [0x01, 0x06, 0x00, 0x01, 0x01, 0x00];
    let crc = crc::mod_bus_crc_calculation(&command);
    assert_eq!(crc, 0xd99a);
}

#[test]
fn test_build_action_command() {
    let expected_command: Vec<u8> = [0x01, 0x06, 0x0, 1, 1, 0, 0xd9, 0x9a].to_vec();
    let command = ActionCommand {
        slave_id: 0x01,
        function: 6,
        address: 1,
        command: ActionCommandsEnum::Open,
        delay_time: 0,
    }
    .to_r4_mod_bus_command()
    .unwrap()
    .to_vec_with_bytes()
    .unwrap();
    assert_eq!(expected_command, command);
}

#[test]
fn test_build_status_command() {
    let expected_command: Vec<u8> = [0x01, 0x03, 0, 0x01, 0x00, 0x01, 0xd5, 0xca].to_vec();
    let command = StatusCommand {
        slave_id: 0x01,
        function: 3,
        starting_register_address: 1,
        register_length: 1,
    }
    .to_mod_bus_command()
    .to_vec_with_bytes()
    .unwrap();
    assert_eq!(expected_command, command);
}

#[test]
fn test_response_parsing_1_entry() {
    let expected_result = StatusCommandResponse {
        slave_id: 1,
        function: 3,
        data_lenght: 2,
        data: Box::new(vec![1]),
        crc: 0x7984,
    };
    let command: Vec<u8> = [0x01, 0x03, 0x02, 0x00, 0x01, 0x79, 0x84].to_vec();
    let command_result = StatusCommandResponse::from_r4_frame(command).unwrap();
    assert_eq!(expected_result, command_result);
}
