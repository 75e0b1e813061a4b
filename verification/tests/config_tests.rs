use ccsds_router::config::{
    AppConfig, FrameSettings, GuiTheme, PacketSize, StreamOption, StreamSettings,
    DEFAULT_MAX_LENGTH_BYTES,
};
use ccsds_router::parser::{CcsdsParser, CcsdsParserConfig, PullResult};
use ccsds_router::timing::TimestampSetting;

#[test]
fn default_configuration() {
    let config = AppConfig::default();
    assert_eq!(config.input_selection, StreamOption::File);
    assert!(config.output_settings.is_empty());
    assert!(config.allowed_input_apids.is_none());
    assert_eq!(config.theme, GuiTheme::Dark);
    assert_eq!(config.packet_size, PacketSize::Variable);
    assert!(!config.little_endian_ccsds);
    assert_eq!(config.frame_settings, FrameSettings::default());
    assert_eq!(config.max_length_bytes, DEFAULT_MAX_LENGTH_BYTES);
    assert_eq!(config.max_length_bytes, 65542);
    assert_eq!(config.timestamp_setting, TimestampSetting::Asap);
    assert!(!config.auto_start);
    assert!(config.is_valid());
}

#[test]
fn default_stream_settings() {
    let settings = StreamSettings::default();
    assert_eq!(settings.file.file_name, "data.bin");
    assert_eq!(settings.tcp_client.port, 8000);
    assert_eq!(settings.tcp_client.ip, "127.0.0.1");
    assert_eq!(settings.tcp_server.port, 8000);
    assert_eq!(settings.udp.port, 8001);
}

#[test]
fn stream_option_tags() {
    for (option, tag) in [
        (StreamOption::File, 1u8),
        (StreamOption::TcpClient, 2),
        (StreamOption::TcpServer, 3),
        (StreamOption::Udp, 4),
    ] {
        assert_eq!(option.to_tag(), tag);
        assert_eq!(StreamOption::from_tag(tag), Some(option));
    }
    assert_eq!(StreamOption::from_tag(0), None);
    assert_eq!(StreamOption::from_tag(5), None);
}

#[test]
fn packet_size_num_bytes() {
    assert_eq!(PacketSize::Variable.num_bytes(), 100);
    assert_eq!(PacketSize::Fixed(64).num_bytes(), 64);
    assert_eq!(PacketSize::default(), PacketSize::Variable);
}

#[test]
fn validity_checks() {
    let mut config = AppConfig::default();
    assert!(config.is_valid());
    // A fixed size smaller than the primary header is unusable.
    config.packet_size = PacketSize::Fixed(4);
    assert!(!config.is_valid());
    config.packet_size = PacketSize::Fixed(6);
    assert!(config.is_valid());
    // The per-output lists must agree in length.
    config.allowed_output_apids = vec![None];
    assert!(!config.is_valid());
    config.output_settings = vec![StreamSettings::default()];
    config.output_selection = vec![StreamOption::Udp];
    assert!(config.is_valid());
}

#[test]
fn parser_config_follows_app_config() {
    let mut config = AppConfig::default();
    config.allowed_input_apids = Some(vec![1, 2, 3]);
    config.packet_size = PacketSize::Fixed(32);
    config.frame_settings =
        FrameSettings { prefix_bytes: 4, keep_prefix: true, postfix_bytes: 2, keep_postfix: false };
    config.little_endian_ccsds = true;

    let parser_config = config.parser_config();
    assert_eq!(parser_config.allowed_apids, Some(vec![1, 2, 3]));
    assert_eq!(parser_config.max_packet_length, Some(32));
    assert_eq!(parser_config.header_bytes, 4);
    assert!(parser_config.keep_header);
    assert_eq!(parser_config.footer_bytes, 2);
    assert!(!parser_config.keep_footer);
    assert!(parser_config.little_endian_header);
}

#[test]
fn parser_from_app_config_filters_input() {
    let mut config = AppConfig::default();
    config.allowed_input_apids = Some(vec![10]);
    let mut parser = CcsdsParser::with_config(config.parser_config());

    // apid 10 passes, apid 11 is dropped.
    let mk = |apid: u16| -> Vec<u8> {
        let w0: u16 = 0x1800 | apid;
        vec![(w0 >> 8) as u8, (w0 & 0xFF) as u8, 0xC0, 0x00, 0x00, 0x00, 0x42]
    };
    parser.append(&mk(10));
    parser.append(&mk(11));
    assert!(matches!(parser.pull(), PullResult::Packet { .. }));
    assert!(matches!(parser.pull(), PullResult::Dropped(h) if h.apid == 11));
    assert!(matches!(parser.pull(), PullResult::NeedMore));
}

#[test]
fn default_parser_config_is_plain() {
    let parser_config = CcsdsParserConfig::default();
    assert!(parser_config.allowed_apids.is_none());
    assert!(parser_config.max_packet_length.is_none());
    assert_eq!(parser_config.header_bytes, 0);
    assert!(!parser_config.keep_header);
    assert_eq!(parser_config.footer_bytes, 0);
    assert!(!parser_config.keep_footer);
    assert!(!parser_config.little_endian_header);
}
