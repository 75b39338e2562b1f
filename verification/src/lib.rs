//! Command protocol stack of a USB-MIDI controlled signal generator.
//!
//! A host sends lines of text such as `AT+FREQ=9#1000#500`, wrapped in MIDI
//! system-exclusive messages and cut into four-byte USB-MIDI packets. This
//! library holds everything that decides: the packet and message codec
//! (`sysex`), the command grammar and its rendering (`at::command`), the
//! handlers and their dispatcher (`at::handler`, `at::dispatcher`), the
//! messages and the registry of the bus between the tasks (`channel`), the
//! control sequences of the AD985x synthesizer (`dds::ad985x`), and what each
//! task does about a message (`at::at_task`, `dds::dds_task`,
//! `rgb::rgb_task`, `usb::usb_task`, `status`).
//!
//! Nothing here touches hardware. A task of the firmware waits for a message
//! or for the device, hands what arrived to one of these functions, and
//! carries out what comes back.
//!
//! Texts are modelled as sequences of characters, buffers as sequences of
//! bytes, and control sequences as sequences of pin operations, of which
//! the driver hands out one position at a time. The bounded strings, lists
//! and maps are those of `heapless`. What is believed of them without proof
//! stands in `bounded`, `at::handler`, `channel::channel_manager` and
//! `sysex`; what is believed of `str::parse` and `core::str::from_utf8`
//! stands in `at::number` and `usb::usb_task`. Everything else is proved.

pub mod at;
pub mod b64;
pub mod bounded;
pub mod channel;
pub mod dds;
pub mod error;
pub mod hexa_config;
pub mod rgb;
pub mod status;
pub mod sysex;
pub mod usb;
