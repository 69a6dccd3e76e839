//! Safe, verified core of a terminal writer: the decisions and translations
//! around a native console buffer's fill and write calls, the text encoding
//! that precedes a wide-character write, and the state of an ANSI screen
//! manager that hands bytes to an output sink.

pub mod native;
pub mod text;
pub mod ansi;

pub use native::{
    fill_attribute_call, fill_character_call, fill_console_output_attribute,
    fill_console_output_character, is_success, write_console_output, BufferInfo, Coord,
    FatalNativeFailure, FillAttribute, FillCharacter, NativeReply, SmallRect, BLANK,
};
pub use text::{encode_char_buffer, write_char_buffer, TextWrite};
pub use ansi::{AnsiScreenManager, AnsiScreenState};
