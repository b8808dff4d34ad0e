use relay_board_rs_485::device::error::DeviceError;
use relay_board_rs_485::device::relay::{
    ActionCommand, ActionCommandsEnum, RelayBoardWaveShare, StatusCommandResponse,
};
use relay_board_rs_485::protocol::crc::mod_bus_crc_calculation;
use relay_board_rs_485::protocol::modbus::{ModBusRequest, ModBusResponse};
use relay_board_rs_485::protocol::utils::remove_trailing_zeros;
use relay_board_rs_485::transport::error::TransportError;
use relay_board_rs_485::transport::generic::Transport;
use relay_board_rs_485::transport::mock::MockTransport;
use relay_board_rs_485::RelayBoardR4D8A08;

/// A line on which every operation fails.
struct BrokenLine;

impl Transport for BrokenLine {
    fn write_frame(&mut self, _data: Vec<u8>) -> Result<(), TransportError> {
        Err(TransportError::UnknownError)
    }

    fn read_frame(&mut self) -> Result<Vec<u8>, TransportError> {
        Err(TransportError::Timeout)
    }

    fn flush(&mut self) -> Result<(), TransportError> {
        Err(TransportError::UnknownError)
    }
}

fn mock() -> MockTransport {
    MockTransport { sent_frames: Vec::new(), queued_responses: Vec::new() }
}

#[test]
fn crc_of_empty_message() {
    // The register starts at 0xFFFF and is returned with its bytes exchanged.
    assert_eq!(mod_bus_crc_calculation(&[]), 0xFFFF);
}

#[test]
fn crc_over_whole_frame_is_zero() {
    let frame = ModBusRequest {
        slave_addr: 1,
        function_code: 6,
        start_address: vec![0, 1],
        quantity: vec![1, 0],
    }
    .to_vec_with_bytes()
    .unwrap();
    assert_eq!(mod_bus_crc_calculation(&frame), 0);
    let frame = vec![0x01, 0x03, 0x02, 0x00, 0x01, 0x79, 0x84];
    assert_eq!(mod_bus_crc_calculation(&frame), 0);
}

#[test]
fn crc_detects_a_changed_byte() {
    assert_ne!(mod_bus_crc_calculation(&[0x01, 0x06, 0x00, 0x01, 0x01, 0x01]), 0xd99a);
}

#[test]
fn response_round_trip() {
    let body = vec![0x01, 0x03, 0x04, 0x00, 0x01, 0x00, 0x00];
    let crc = mod_bus_crc_calculation(&body);
    assert_eq!(crc, 0xabf3);
    let mut frame = body.clone();
    frame.extend_from_slice(&crc.to_be_bytes());
    assert!(ModBusResponse::is_valid_frame(&frame));
    let response = ModBusResponse::from_vec(frame).unwrap();
    assert_eq!(
        response,
        ModBusResponse {
            slave_addr: 1,
            function_code: 3,
            quantitiy: 4,
            data: vec![0, 1, 0, 0],
            crc: 0xabf3
        }
    );
}

#[test]
fn response_ignores_bytes_after_crc() {
    let frame = vec![0x01, 0x03, 0x02, 0x00, 0x01, 0x79, 0x84, 0x00, 0x07];
    let response = ModBusResponse::from_vec(frame).unwrap();
    assert_eq!(response.data, vec![0, 1]);
    assert_eq!(response.crc, 0x7984);
}

#[test]
fn invalid_frames_are_refused() {
    assert!(!ModBusResponse::is_valid_frame(&[0x01, 0x03]));
    assert!(!ModBusResponse::is_valid_frame(&[0x01, 0x03, 0x02, 0x00, 0x01, 0x79]));
    assert!(!ModBusResponse::is_valid_frame(&[0x01, 0x03, 0x02, 0x00, 0x01, 0x79, 0x85]));
    assert!(!ModBusResponse::is_valid_frame(&[0x01, 0x03, 0xFD, 0x00, 0x01, 0x79, 0x84]));
    assert_eq!(
        StatusCommandResponse::from_r4_frame(vec![0x01, 0x03, 0x02, 0x00, 0x01, 0x79, 0x85]),
        Err(DeviceError::ParsingError)
    );
}

#[test]
fn r4_words_drop_an_odd_byte() {
    let response = ModBusResponse {
        slave_addr: 2,
        function_code: 3,
        quantitiy: 3,
        data: vec![0x12, 0x34, 0x56],
        crc: 0,
    };
    let status = StatusCommandResponse::from_modbus_r4_response(response).unwrap();
    assert_eq!(*status.data, vec![0x1234]);
    assert_eq!(status.slave_id, 2);
    assert_eq!(status.data_lenght, 3);
}

#[test]
fn wave_share_status_mask() {
    let response = ModBusResponse {
        slave_addr: 1,
        function_code: 1,
        quantitiy: 1,
        data: vec![0b1000_0101],
        crc: 0x918b,
    };
    let status = StatusCommandResponse::from_modbus_wave_share_response(response).unwrap();
    assert_eq!(*status.data, vec![1, 0, 1, 0, 0, 0, 0, 1, 0, 0, 0, 0, 0, 0, 0, 0]);
    assert_eq!(status.data_lenght, 8);
    assert_eq!(
        StatusCommandResponse::from_wave_share_frame(vec![1, 1, 1, 5, 0x91, 0x8b]).unwrap().data[0..3],
        [1, 0, 1]
    );
}

#[test]
fn wave_share_frame_without_data_is_refused() {
    let crc = mod_bus_crc_calculation(&[1, 1, 0]);
    let mut frame = vec![1, 1, 0];
    frame.extend_from_slice(&crc.to_be_bytes());
    assert_eq!(StatusCommandResponse::from_wave_share_frame(frame), Err(DeviceError::ParsingError));
}

#[test]
fn command_values() {
    assert_eq!(ActionCommandsEnum::CloseAll.to_value_r4(), 8);
    assert_eq!(ActionCommandsEnum::Toggle.to_value_wave_share(), Ok(0x5500));
    assert_eq!(ActionCommandsEnum::Delay.to_value_wave_share(), Err(DeviceError::UnsuportedCommand));
    assert!(ActionCommand {
        slave_id: 1,
        function: 5,
        address: 1,
        command: ActionCommandsEnum::OpenAll,
        delay_time: 0
    }
    .to_wave_share_mod_bus_command()
    .is_err());
}

#[test]
fn wave_share_open_channel_frame() {
    let mut board = RelayBoardWaveShare { protocol: mock() };
    assert_eq!(board.open_channel(1, 1, 0), Ok(()));
    assert_eq!(board.protocol.sent_frames, vec![vec![1, 5, 0, 1, 0xff, 0, 0, 0x3a, 0x59]]);
}

#[test]
fn wave_share_unsupported_commands_send_nothing() {
    let mut board = RelayBoardWaveShare { protocol: mock() };
    assert_eq!(board.open_all(1, 0), Err(DeviceError::ParsingError));
    assert_eq!(board.close_all(1, 0), Err(DeviceError::ParsingError));
    assert_eq!(board.delay_time(1, 1, 5), Err(DeviceError::ParsingError));
    assert!(board.protocol.sent_frames.is_empty());
}

#[test]
fn toggle_spellings_send_the_same_frame() {
    let mut board = RelayBoardR4D8A08 { protocol: mock() };
    let _ = board.toogle_channel(1, 3, 7);
    let _ = board.toggle_channel(1, 3, 7);
    assert_eq!(board.protocol.sent_frames[0], board.protocol.sent_frames[1]);
}

#[test]
fn status_read_on_silent_mock_times_out() {
    let mut board = RelayBoardR4D8A08 { protocol: mock() };
    board.protocol.queued_responses.push(vec![0x01, 0x03, 0x02, 0x00, 0x01, 0x79, 0x84]);
    // The flush drops the queued answer, so the read finds the line silent.
    assert_eq!(board.read_status(1, 1, 8), Err(DeviceError::UnableToSendError));
    assert_eq!(board.protocol.sent_frames, vec![vec![1, 3, 0, 1, 0, 8, 0x15, 0xcc]]);
    let mut wave = RelayBoardWaveShare { protocol: mock() };
    assert_eq!(wave.read_status(1, 1, 8), Err(DeviceError::UnableToSendError));
    assert_eq!(wave.protocol.sent_frames, vec![vec![1, 1, 0, 1, 0, 8, 0x6c, 0x0c]]);
}

#[test]
fn mock_read_hands_out_queued_frames_in_order() {
    let mut line = mock();
    line.queued_responses.push(vec![1]);
    line.queued_responses.push(vec![2]);
    assert_eq!(line.read_frame(), Ok(vec![1]));
    assert_eq!(line.read_frame(), Ok(vec![2]));
    assert_eq!(line.read_frame(), Err(TransportError::Timeout));
    line.queued_responses.push(vec![3]);
    assert_eq!(line.flush(), Ok(()));
    assert!(line.queued_responses.is_empty());
}

#[test]
fn broken_line_errors() {
    let mut board = RelayBoardR4D8A08 { protocol: BrokenLine };
    assert_eq!(board.open_channel(1, 1, 0), Err(DeviceError::UnableToSendError));
    assert_eq!(board.read_status(1, 1, 8), Err(DeviceError::UnknownError));
}

#[test]
fn trailing_zero_edges() {
    assert_eq!(remove_trailing_zeros(vec![]), Vec::<u8>::new());
    assert_eq!(remove_trailing_zeros(vec![0, 0, 0]), Vec::<u8>::new());
    assert_eq!(remove_trailing_zeros(vec![5]), vec![5]);
    let once = remove_trailing_zeros(vec![0, 3, 0, 0]);
    assert_eq!(once, vec![0, 3]);
    assert_eq!(remove_trailing_zeros(once.clone()), once);
}

#[test]
fn board_frames_pass_crc_check() {
    let mut board = RelayBoardR4D8A08 { protocol: mock() };
    let _ = board.latch_channel(7, 0x1234, 9);
    let _ = board.read_status(7, 2, 4);
    let mut wave = RelayBoardWaveShare { protocol: mock() };
    let _ = wave.toogle_channel(3, 2, 1);
    let mut frames = board.protocol.sent_frames.clone();
    frames.extend(wave.protocol.sent_frames.clone());
    assert_eq!(frames.len(), 3);
    for frame in frames {
        assert_eq!(mod_bus_crc_calculation(&frame), 0);
    }
}

/// A line on which the board answers every request with one fixed frame.
struct AnsweringLine {
    answer: Vec<u8>,
    waiting: Vec<Vec<u8>>,
    written: Vec<Vec<u8>>,
}

impl Transport for AnsweringLine {
    fn write_frame(&mut self, data: Vec<u8>) -> Result<(), TransportError> {
        self.written.push(data);
        self.waiting.push(self.answer.clone());
        Ok(())
    }

    fn read_frame(&mut self) -> Result<Vec<u8>, TransportError> {
        if self.waiting.is_empty() {
            Err(TransportError::Timeout)
        } else {
            Ok(self.waiting.remove(0))
        }
    }

    fn flush(&mut self) -> Result<(), TransportError> {
        self.waiting.clear();
        Ok(())
    }
}

#[test]
fn status_read_decodes_the_answer() {
    let line = AnsweringLine {
        answer: vec![0x01, 0x03, 0x02, 0x00, 0x01, 0x79, 0x84],
        waiting: vec![vec![9, 9, 9]],
        written: Vec::new(),
    };
    let mut board = RelayBoardR4D8A08 { protocol: line };
    let status = board.read_status(1, 1, 1).unwrap();
    assert_eq!(*status.data, vec![1]);
    assert_eq!(status.crc, 0x7984);
    assert_eq!(board.protocol.written, vec![vec![1, 3, 0, 1, 0, 1, 0xd5, 0xca]]);

    let bad = AnsweringLine {
        answer: vec![0x01, 0x03, 0x02, 0x00, 0x01, 0x79, 0x85],
        waiting: Vec::new(),
        written: Vec::new(),
    };
    let mut board = RelayBoardR4D8A08 { protocol: bad };
    assert_eq!(board.read_status(1, 1, 1), Err(DeviceError::ParsingError));
}
