//! Application configuration: endpoint selection and parameters, packet
//! sizing, frame wrapper settings, APID allow-lists, the length guard and
//! the timing discipline. A configuration is a plain value, cloned into the
//! processor when processing starts.

use vstd::prelude::*;

use crate::parser::CcsdsParserConfig;
use crate::timing::{TimestampDef, TimestampSetting};

verus! {

/// Colour theme of the configuration panel (an external collaborator; the
/// value is only carried).
#[derive(Clone, Copy, Debug, PartialEq, Eq, Structural)]
pub enum GuiTheme {
    /// Dark theme.
    Dark,
    /// Light theme.
    Light,
}

impl Default for GuiTheme {
    /// Dark.
    fn default() -> (r: Self)
        ensures
            r is Dark,
    {
        GuiTheme::Dark
    }
}

/// Which kind of transport endpoint a stream uses.
#[derive(Clone, Copy, Debug, PartialEq, Eq, Structural)]
pub enum StreamOption {
    /// A file.
    File,
    /// An outgoing TCP connection.
    TcpClient,
    /// A listening TCP endpoint that accepts one client.
    TcpServer,
    /// A UDP socket.
    Udp,
}

impl StreamOption {
    /// The endpoint's integer tag in the configuration file.
    pub fn to_tag(&self) -> (r: u8)
        ensures
            self is File ==> r == 1,
            self is TcpClient ==> r == 2,
            self is TcpServer ==> r == 3,
            self is Udp ==> r == 4,
    {
        match self {
            StreamOption::File => 1,
            StreamOption::TcpClient => 2,
            StreamOption::TcpServer => 3,
            StreamOption::Udp => 4,
        }
    }

    /// The endpoint selected by an integer tag, `None` for a tag no endpoint
    /// has.
    pub fn from_tag(tag: u8) -> (r: Option<Self>)
        ensures
            tag == 1 ==> (r matches Option::Some(o) && o is File),
            tag == 2 ==> (r matches Option::Some(o) && o is TcpClient),
            tag == 3 ==> (r matches Option::Some(o) && o is TcpServer),
            tag == 4 ==> (r matches Option::Some(o) && o is Udp),
            !(1 <= tag <= 4) ==> r is None,
    {
        match tag {
            1 => Option::Some(StreamOption::File),
            2 => Option::Some(StreamOption::TcpClient),
            3 => Option::Some(StreamOption::TcpServer),
            4 => Option::Some(StreamOption::Udp),
            _ => Option::None,
        }
    }
}

impl Default for StreamOption {
    /// A file.
    fn default() -> (r: Self)
        ensures
            r is File,
    {
        StreamOption::File
    }
}

/// Parameters for a file endpoint.
#[derive(Clone, Debug, PartialEq, Eq)]
pub struct FileSettings {
    /// Path of the file to read or write.
    pub file_name: String,
}

impl Default for FileSettings {
    /// The file `data.bin`.
    fn default() -> (r: Self)
        ensures
            r.file_name@ == "data.bin"@,
    {
        FileSettings { file_name: "data.bin".to_owned() }
    }
}

/// Parameters for an outgoing TCP connection.
#[derive(Clone, Debug, PartialEq, Eq)]
pub struct TcpClientSettings {
    /// Port to connect to.
    pub port: u16,
    /// Address to connect to.
    pub ip: String,
}

impl Default for TcpClientSettings {
    /// Local port 8000.
    fn default() -> (r: Self)
        ensures
            r.port == 8000,
            r.ip@ == "127.0.0.1"@,
    {
        TcpClientSettings { port: 8000, ip: "127.0.0.1".to_owned() }
    }
}

/// Parameters for a listening TCP endpoint.
#[derive(Clone, Debug, PartialEq, Eq)]
pub struct TcpServerSettings {
    /// Port to listen on.
    pub port: u16,
    /// Address to bind.
    pub ip: String,
}

impl Default for TcpServerSettings {
    /// Local port 8000.
    fn default() -> (r: Self)
        ensures
            r.port == 8000,
            r.ip@ == "127.0.0.1"@,
    {
        TcpServerSettings { port: 8000, ip: "127.0.0.1".to_owned() }
    }
}

/// Parameters for a UDP endpoint.
#[derive(Clone, Debug, PartialEq, Eq)]
pub struct UdpSettings {
    /// Destination port for writes; bound port for reads.
    pub port: u16,
    /// Destination address for writes; bound address for reads.
    pub ip: String,
}

impl Default for UdpSettings {
    /// Local port 8001.
    fn default() -> (r: Self)
        ensures
            r.port == 8001,
            r.ip@ == "127.0.0.1"@,
    {
        UdpSettings { port: 8001, ip: "127.0.0.1".to_owned() }
    }
}

/// Parameters for every endpoint kind; the selected kind decides which are
/// used.
#[derive(Clone, Debug, PartialEq, Eq)]
pub struct StreamSettings {
    /// File endpoint parameters.
    pub file: FileSettings,
    /// TCP client endpoint parameters.
    pub tcp_client: TcpClientSettings,
    /// TCP server endpoint parameters.
    pub tcp_server: TcpServerSettings,
    /// UDP endpoint parameters.
    pub udp: UdpSettings,
}

impl Default for StreamSettings {
    /// Every endpoint kind at its default parameters.
    fn default() -> (r: Self)
        ensures
            r.file.file_name@ == "data.bin"@,
            r.tcp_client.port == 8000,
            r.tcp_server.port == 8000,
            r.udp.port == 8001,
    {
        StreamSettings {
            file: FileSettings::default(),
            tcp_client: TcpClientSettings::default(),
            tcp_server: TcpServerSettings::default(),
            udp: UdpSettings::default(),
        }
    }
}

/// How packet sizes are determined when parsing.
#[derive(Clone, Copy, Debug, PartialEq, Eq, Structural)]
pub enum PacketSize {
    /// Sized by each packet's length field.
    Variable,
    /// Every packet has this fixed total size in bytes, length field
    /// ignored.
    Fixed(u32),
}

impl PacketSize {
    /// The fixed size, or a nominal 100 bytes in variable mode (used only as
    /// a display placeholder).
    pub fn num_bytes(&self) -> (r: u32)
        ensures
            self is Variable ==> r == 100,
            self matches PacketSize::Fixed(num) ==> r == num,
    {
        match self {
            PacketSize::Variable => 100,
            PacketSize::Fixed(num) => *num,
        }
    }
}

impl Default for PacketSize {
    /// Sized by the length field.
    fn default() -> (r: Self)
        ensures
            r is Variable,
    {
        PacketSize::Variable
    }
}

/// Widths of the opaque wrapper around each CCSDS packet in the stream, and
/// whether each side is kept in the forwarded bytes.
#[derive(Clone, Copy, Debug, PartialEq, Eq, Structural)]
pub struct FrameSettings {
    /// Wrapper bytes before each primary header.
    pub prefix_bytes: u32,
    /// Whether the prefix is forwarded with the packet.
    pub keep_prefix: bool,
    /// Wrapper bytes after each packet.
    pub postfix_bytes: u32,
    /// Whether the postfix is forwarded with the packet.
    pub keep_postfix: bool,
}

impl Default for FrameSettings {
    /// No wrapper.
    fn default() -> (r: Self)
        ensures
            r == (FrameSettings {
                prefix_bytes: 0,
                keep_prefix: false,
                postfix_bytes: 0,
                keep_postfix: false,
            }),
    {
        FrameSettings { prefix_bytes: 0, keep_prefix: false, postfix_bytes: 0, keep_postfix: false }
    }
}

/// Everything processing needs: the input endpoint and its parsing rules,
/// the output endpoints with their APID allow-lists, the length guard and
/// the timing discipline.
#[derive(Clone, Debug, PartialEq)]
pub struct AppConfig {
    /// Parameters of the input endpoint.
    pub input_settings: StreamSettings,
    /// Which kind of endpoint the input is.
    pub input_selection: StreamOption,
    /// Parameters of each output endpoint.
    pub output_settings: Vec<StreamSettings>,
    /// Which kind of endpoint each output is.
    pub output_selection: Vec<StreamOption>,
    /// APIDs the parser admits; `None` admits all.
    pub allowed_input_apids: Option<Vec<u16>>,
    /// Per-output APID allow-list; `None` forwards all.
    pub allowed_output_apids: Vec<Option<Vec<u16>>>,
    /// Colour theme of the configuration panel.
    pub theme: GuiTheme,
    /// How packet sizes are determined.
    pub packet_size: PacketSize,
    /// Whether the primary header's 16-bit words arrive byte-swapped.
    pub little_endian_ccsds: bool,
    /// The frame wrapper around each packet.
    pub frame_settings: FrameSettings,
    /// Largest CCSDS packet length (header plus data, wrapper ignored) that
    /// is forwarded rather than dropped.
    pub max_length_bytes: i32,
    /// The timing discipline.
    pub timestamp_setting: TimestampSetting,
    /// Where and how packets carry their timestamp.
    pub timestamp_def: TimestampDef,
    /// Whether processing starts without waiting for a start command.
    pub auto_start: bool,
}

/// The default length guard: the largest well-formed CCSDS packet, 6 header
/// bytes plus 65536 data bytes.
pub const DEFAULT_MAX_LENGTH_BYTES: i32 = 65542;

impl AppConfig {
    /// A usable configuration: a fixed packet size covers at least the
    /// 6-byte header, and the three per-output lists agree in length.
    pub open spec fn wf(self) -> bool {
        &&& (self.packet_size matches PacketSize::Fixed(n) ==> n >= 6)
        &&& self.output_settings@.len() == self.output_selection@.len()
        &&& self.output_settings@.len() == self.allowed_output_apids@.len()
    }

    /// Whether this configuration is usable; a start command carrying an
    /// unusable configuration is rejected.
    pub fn is_valid(&self) -> (r: bool)
        ensures
            r == self.wf(),
    {
        let sizes_ok = match self.packet_size {
            PacketSize::Fixed(n) => n >= 6,
            PacketSize::Variable => true,
        };
        sizes_ok && self.output_settings.len() == self.output_selection.len()
            && self.output_settings.len() == self.allowed_output_apids.len()
    }

    /// The parser configuration this application configuration calls for.
    pub fn parser_config(&self) -> (r: CcsdsParserConfig)
        ensures
            (match self.allowed_input_apids {
                Option::None => r.allowed_apids is None,
                Option::Some(v) => r.allowed_apids matches Option::Some(v2) && v2@ == v@,
            }),
            (match self.packet_size {
                PacketSize::Variable => r.max_packet_length is None,
                PacketSize::Fixed(n) => r.max_packet_length == Option::Some(n),
            }),
            r.header_bytes == self.frame_settings.prefix_bytes,
            r.keep_header == self.frame_settings.keep_prefix,
            r.footer_bytes == self.frame_settings.postfix_bytes,
            r.keep_footer == self.frame_settings.keep_postfix,
            r.little_endian_header == self.little_endian_ccsds,
            self.wf() ==> r.wf(),
    {
        let allowed_apids = match &self.allowed_input_apids {
            Option::None => Option::None,
            Option::Some(v) => Option::Some(copy_apids(v)),
        };
        let max_packet_length = match self.packet_size {
            PacketSize::Variable => Option::None,
            PacketSize::Fixed(n) => Option::Some(n),
        };
        CcsdsParserConfig {
            allowed_apids,
            max_packet_length,
            header_bytes: self.frame_settings.prefix_bytes,
            keep_header: self.frame_settings.keep_prefix,
            footer_bytes: self.frame_settings.postfix_bytes,
            keep_footer: self.frame_settings.keep_postfix,
            little_endian_header: self.little_endian_ccsds,
        }
    }
}

impl Default for AppConfig {
    /// File input, no outputs, everything admitted, variable sizing, no
    /// wrapper, the default length guard, emission as fast as possible, no
    /// automatic start.
    fn default() -> (r: Self)
        ensures
            r.input_selection is File,
            r.output_settings@.len() == 0,
            r.output_selection@.len() == 0,
            r.allowed_input_apids is None,
            r.allowed_output_apids@.len() == 0,
            r.theme is Dark,
            r.packet_size is Variable,
            !r.little_endian_ccsds,
            r.frame_settings.prefix_bytes == 0,
            !r.frame_settings.keep_prefix,
            r.frame_settings.postfix_bytes == 0,
            !r.frame_settings.keep_postfix,
            r.max_length_bytes == DEFAULT_MAX_LENGTH_BYTES,
            r.timestamp_setting is Asap,
            !r.auto_start,
            r.wf(),
    {
        AppConfig {
            input_settings: StreamSettings::default(),
            input_selection: StreamOption::default(),
            output_settings: Vec::new(),
            output_selection: Vec::new(),
            allowed_input_apids: Option::None,
            allowed_output_apids: Vec::new(),
            theme: GuiTheme::default(),
            packet_size: PacketSize::default(),
            little_endian_ccsds: false,
            frame_settings: FrameSettings::default(),
            max_length_bytes: DEFAULT_MAX_LENGTH_BYTES,
            timestamp_setting: TimestampSetting::default(),
            timestamp_def: TimestampDef::default(),
            auto_start: false,
        }
    }
}

/// A copy of an APID allow-list.
fn copy_apids(v: &Vec<u16>) -> (r: Vec<u16>)
    ensures
        r@ == v@,
{
    let mut r: Vec<u16> = Vec::new();
    let mut i: usize = 0;
    while i < v.len()
        invariant
            i <= v@.len(),
            r@ == v@.subrange(0, i as int),
        decreases v@.len() - i,
    {
        r.push(v[i]);
        proof {
            assert(r@ =~= v@.subrange(0, i as int + 1));
        }
        i += 1;
    }
    proof {
        assert(r@ =~= v@);
    }
    r
}

} // verus!
