//! The service configuration and its defaults.
//!
//! The speech rate of the voice settings is a floating-point number and is
//! kept beside this type by the program that loads the configuration.

use vstd::prelude::*;
use vstd::utf8::*;

verus! {

broadcast use vstd::string::group_string_axioms;

/// Shortest shared secret, in bytes, that the service starts with.
pub const MIN_SECRET_BYTES: usize = 32;

/// Settings of the Jimmy service.
#[derive(Debug, Clone)]
pub struct Config {
    pub bind: String,
    pub shared_secret: String,
    pub name: String,
    pub require_confirmation_for: Vec<String>,
    pub allowed_apps: Vec<String>,
    pub ollama_url: String,
    pub ollama_model: String,
    pub ollama_system_prompt: String,
    pub voice_url: String,
    pub voice_status_url: String,
    pub voice_engine: String,
    pub fixed_voice: String,
    pub loaded_voices: Vec<String>,
    pub voice_port: u16,
    pub voice_mode: String,
    pub stt_ready: bool,
    pub piper: bool,
    pub confirmation_ttl_seconds: i64,
}

/// Why a configuration is refused at start-up.
#[derive(Debug, Clone, Copy, PartialEq, Eq)]
pub enum ConfigError {
    SecretTooShort,
}

impl ConfigError {
    pub fn message(&self) -> (res: String)
        ensures
            res@ == "shared_secret must be at least 32 characters"@,
    {
        String::from_str("shared_secret must be at least 32 characters")
    }
}

impl Config {
    /// The number of UTF-8 bytes of the shared secret.
    pub open spec fn secret_bytes(&self) -> nat {
        encode_utf8(self.shared_secret@).len()
    }

    /// Refuses a shared secret shorter than 32 bytes.
    pub fn check_secret(&self) -> (res: Result<(), ConfigError>)
        ensures
            res is Ok <==> self.secret_bytes() >= MIN_SECRET_BYTES,
            res is Err ==> res == Err::<(), ConfigError>(ConfigError::SecretTooShort),
    {
        if self.shared_secret.as_str().as_bytes().len() < MIN_SECRET_BYTES {
            Err(ConfigError::SecretTooShort)
        } else {
            Ok(())
        }
    }

    /// The address to listen on: the configured one, or `cli_bind` where the
    /// configuration leaves it empty.
    pub fn listen_address(&self, cli_bind: String) -> (res: String)
        ensures
            res@ == (if self.bind@.len() == 0 { cli_bind@ } else { self.bind@ }),
    {
        if self.bind.as_str().is_empty() {
            cli_bind
        } else {
            self.bind.clone()
        }
    }
}

pub fn default_bind() -> (res: String)
    ensures
        res@ == "127.0.0.1:8787"@,
{
    String::from_str("127.0.0.1:8787")
}

pub fn default_name() -> (res: String)
    ensures
        res@ == "Jimmy"@,
{
    String::from_str("Jimmy")
}

/// The actions that wait for the user's confirmation unless the
/// configuration names others.
pub fn default_confirm() -> (res: Vec<String>)
    ensures
        res.deep_view() == seq![
            "close_app"@,
            "type_text"@,
            "mouse_click"@,
            "shutdown"@,
            "reboot"@,
        ],
{
    let mut v: Vec<String> = Vec::new();
    v.push(String::from_str("close_app"));
    v.push(String::from_str("type_text"));
    v.push(String::from_str("mouse_click"));
    v.push(String::from_str("shutdown"));
    v.push(String::from_str("reboot"));
    assert(v.deep_view() =~= seq![
        "close_app"@,
        "type_text"@,
        "mouse_click"@,
        "shutdown"@,
        "reboot"@,
    ]);
    v
}

pub fn default_ollama_url() -> (res: String)
    ensures
        res@ == "http://192.168.10.181:11434"@,
{
    String::from_str("http://192.168.10.181:11434")
}

pub fn default_ollama_model() -> (res: String)
    ensures
        res@ == "llama3.2"@,
{
    String::from_str("llama3.2")
}

pub fn default_system_prompt() -> (res: String)
    ensures
        res@
            == "You are Jimmy, a helpful desktop AI companion. Never claim a desktop action happened unless Jimmy's action API completed it. Ask for confirmation for sensitive actions. Be concise, friendly, and practical."@,
{
    String::from_str(
        "You are Jimmy, a helpful desktop AI companion. Never claim a desktop action happened unless Jimmy's action API completed it. Ask for confirmation for sensitive actions. Be concise, friendly, and practical.",
    )
}

pub fn default_voice_url() -> (res: String)
    ensures
        res@ == "http://127.0.0.1:5006"@,
{
    String::from_str("http://127.0.0.1:5006")
}

pub fn default_voice_status_url() -> (res: String)
    ensures
        res@ == "http://127.0.0.1:5006/health"@,
{
    String::from_str("http://127.0.0.1:5006/health")
}

pub fn default_voice_engine() -> (res: String)
    ensures
        res@ == "whisper.cpp tiny.en"@,
{
    String::from_str("whisper.cpp tiny.en")
}

pub fn default_fixed_voice() -> (res: String)
    ensures
        res@ == "en_US-lessac-medium.onnx"@,
{
    String::from_str("en_US-lessac-medium.onnx")
}

pub fn default_voice_port() -> (res: u16)
    ensures
        res == 5006,
{
    5006
}

pub fn default_voice_mode() -> (res: String)
    ensures
        res@ == "fixed voice"@,
{
    String::from_str("fixed voice")
}

pub fn default_stt_ready() -> (res: bool)
    ensures
        res,
{
    true
}

/// Seconds that a pending confirmation stays valid.
pub fn default_confirmation_ttl() -> (res: i64)
    ensures
        res == 120,
{
    120
}

} // verus!
