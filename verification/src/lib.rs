//! The deciding core of Wispr, a desktop utility that records speech, has it
//! transcribed and shows the text.
//!
//! The library does no input or output. Whoever drives it reads the audio
//! host, the clock and the answers of the outside world, hands them in as
//! plain values, and carries out what the library answers. In return every
//! decision is stated in a contract and proved.
//!
//! The heart is the audio capture: [`device`] picks the input device,
//! [`stream`] settles the stream and the header of the output file,
//! [`sample`] measures and converts samples, [`watchdog`] ends a session that
//! lasts too long or stays silent, and [`audio`] holds the controller that
//! ties them together. [`laws`] states what holds of a session over any
//! course of events. Around it stand the configuration, the user dictionary,
//! the retry policy of the transcription client, and what the window, the
//! tray and the clipboard decide.

pub mod api;
pub mod audio;
pub mod clipboard;
pub mod config;
pub mod device;
pub mod error;
pub mod laws;
pub mod sample;
pub mod session;
pub mod stream;
pub mod strings;
pub mod text_processor;
pub mod tray;
pub mod watchdog;
pub mod window;
