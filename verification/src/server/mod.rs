pub mod config;

use vstd::prelude::*;

use self::config::{frame_buffer_len_of, ServerConfig};
use crate::utils::argv::{
    all_c_compatible, all_c_strings, is_c_compatible, is_c_string, strings_view, Argv,
};

verus! {

/// Everything a VNC server screen is set up with: the command-line
/// arguments handed to libvncserver, the screen geometry and pixel layout,
/// a zeroed frame buffer, the HTTP directory and the port.
pub struct ServerSetup {
    pub argv: Argv,
    pub width: i32,
    pub height: i32,
    pub bits_per_sample: i32,
    pub samples_per_pixel: i32,
    pub bytes_per_pixel: i32,
    pub frame_buffer: Vec<u8>,
    pub http_dir: String,
    pub port: i32,
}

/// Whether a server screen can be set up turns only on the arguments and
/// the host holding no NUL character and on the frame buffer's length being
/// defined; the colour layout (`bits_per_sample`, `samples_per_pixel`) is
/// handed on as given and never refuses a setup, so two configs that share
/// width, height and bytes per pixel are accepted alike.
pub proof fn server_setup_acceptance(
    config: ServerConfig,
    other: ServerConfig,
    host: Seq<char>,
    args: Seq<Seq<char>>,
)
    ensures
        ServerSetup::accepts(config, host, args) <==> (all_c_strings(args) && frame_buffer_len_of(
            config.width() as int,
            config.height() as int,
            config.bytes_per_pixel() as int,
        ) is Some && is_c_string(host)),
        other.width() == config.width() && other.height() == config.height()
            && other.bytes_per_pixel() == config.bytes_per_pixel() ==> (ServerSetup::accepts(
            other,
            host,
            args,
        ) <==> ServerSetup::accepts(config, host, args)),
{
}

impl ServerSetup {
    /// The inputs from which a server screen can be set up: every argument
    /// and the host can become C strings, and the frame buffer's length is
    /// defined.
    pub open spec fn accepts(config: ServerConfig, host: Seq<char>, args: Seq<Seq<char>>) -> bool {
        &&& all_c_strings(args)
        &&& frame_buffer_len_of(
            config.width() as int,
            config.height() as int,
            config.bytes_per_pixel() as int,
        ) is Some
        &&& is_c_string(host)
    }

    /// Sets up a server screen from `config`, listening on `port`, with
    /// `host` (the listening address, as text) as its HTTP directory and
    /// `args` as its command line. `None` where an argument or the host holds
    /// a NUL character, or where the frame buffer's length overflows `i32` or
    /// is negative.
    pub fn new(config: ServerConfig, host: String, port: u16, args: Vec<String>) -> (r: Option<
        ServerSetup,
    >)
        ensures
            r is Some <==> Self::accepts(config, host@, strings_view(args@)),
            r is Some <==> (all_c_strings(strings_view(args@)) && frame_buffer_len_of(
                config.width() as int,
                config.height() as int,
                config.bytes_per_pixel() as int,
            ) is Some && is_c_string(host@)),
            r matches Some(s) ==> {
                &&& s.argv@ == strings_view(args@)
                &&& s.width == config.width()
                &&& s.height == config.height()
                &&& s.bits_per_sample == config.bits_per_sample()
                &&& s.samples_per_pixel == config.samples_per_pixel()
                &&& s.bytes_per_pixel == config.bytes_per_pixel()
                &&& frame_buffer_len_of(
                    config.width() as int,
                    config.height() as int,
                    config.bytes_per_pixel() as int,
                ) == Some(s.frame_buffer@.len())
                &&& forall|i: int| 0 <= i < s.frame_buffer@.len() ==> #[trigger] s.frame_buffer@[i] == 0
                &&& s.http_dir@ == host@
                &&& s.port == port
            },
    {
        if !all_c_compatible(&args) {
            return None;
        }
        let len = match config.frame_buffer_len() {
            Some(len) => len,
            None => return None,
        };
        if !is_c_compatible(host.as_str()) {
            return None;
        }
        let argv = Argv::new(args);
        let frame_buffer: Vec<u8> = vec![0u8; len];
        Some(ServerSetup {
            argv,
            width: config.width(),
            height: config.height(),
            bits_per_sample: config.bits_per_sample(),
            samples_per_pixel: config.samples_per_pixel(),
            bytes_per_pixel: config.bytes_per_pixel(),
            frame_buffer,
            http_dir: host,
            port: port as i32,
        })
    }
}

} // verus!
