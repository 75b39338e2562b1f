use crate::bounded::{byte_len, line_as_str, line_from};
use crate::channel::message_type::{Msg, MsgView};
use crate::error::Error;
use crate::sysex::{
    buffer_as_slice, build_sysex, extract_spec, extract_sysex_payload, frame, frame_as_slice,
    frame_bytes, packet_list, packets, sysex_to_usb_midi_packets, SYSEX_CAP,
};
use vstd::prelude::*;
use vstd::utf8::{decode_utf8, encode_utf8, valid_utf8};

verus! {

/// What happened on the USB side.
pub enum UsbEvent<'a> {
    /// These bytes were read from the host.
    Packet(&'a [u8]),
    /// This message arrived on the USB queue.
    Outgoing(Msg),
}

/// What the USB task is to do after an event.
pub enum UsbAction {
    /// Nothing.
    Idle,
    /// Send this message to the command task.
    ToAt(Msg),
    /// Write these packets to the host, in order.
    Write(heapless::Vec<[u8; 4], 64>),
    /// The line does not fit into a message of sixty-four bytes; nothing
    /// is written.
    Unsendable,
}

/// The mathematical content of an action.
pub enum UsbActionView {
    Idle,
    ToAt(MsgView),
    Write(Seq<Seq<u8>>),
    Unsendable,
}

impl View for UsbAction {
    type V = UsbActionView;

    open spec fn view(&self) -> UsbActionView {
        match *self {
            UsbAction::Idle => UsbActionView::Idle,
            UsbAction::ToAt(msg) => UsbActionView::ToAt(msg@),
            UsbAction::Write(pkts) => UsbActionView::Write(packet_list(pkts)),
            UsbAction::Unsendable => UsbActionView::Unsendable,
        }
    }
}

/// What bytes from the host mean: a payload that is no system-exclusive
/// message gives `InvalidSysEx`, one that is no UTF-8 text `InvalidUtf8`,
/// one over sixty-four bytes `InvalidDataLenght`; otherwise the text is a
/// line for the command task.
pub open spec fn usb_rx_spec(data: Seq<u8>) -> MsgView {
    match extract_spec(data) {
        None => MsgView::ErrWOCommand(Error::InvalidSysEx),
        Some(payload) => if !valid_utf8(payload) {
            MsgView::ErrWOCommand(Error::InvalidUtf8)
        } else if byte_len(decode_utf8(payload)) > 64 {
            MsgView::ErrWOCommand(Error::InvalidDataLenght)
        } else {
            MsgView::AtRxLine(decode_utf8(payload))
        },
    }
}

/// What a message on the USB queue asks for: a line to transmit is framed
/// and split into packets, if the framed line fits into sixty-four bytes;
/// other messages ask for nothing.
pub open spec fn usb_tx_spec(msg: MsgView) -> UsbActionView {
    match msg {
        MsgView::UsbTxLine(line) => if byte_len(line) + 2 <= SYSEX_CAP {
            UsbActionView::Write(packets(frame(encode_utf8(line))))
        } else {
            UsbActionView::Unsendable
        },
        _ => UsbActionView::Idle,
    }
}

/// `core::str::from_utf8`: the bytes as text, if they are valid UTF-8.
#[verifier::external_body]
pub(crate) fn text_of<'a>(bytes: &'a [u8]) -> (r: Option<&'a str>)
    ensures
        r is Some <==> valid_utf8(bytes@),
        r is Some ==> r.unwrap()@ == decode_utf8(bytes@),
{
    core::str::from_utf8(bytes).ok()
}

/// Turns bytes from the host into a message for the command task.
pub fn usb_rx(data: &[u8]) -> (msg: Msg)
    ensures
        msg@ == usb_rx_spec(data@),
{
    match extract_sysex_payload(data) {
        Some(payload) => match text_of(buffer_as_slice(&payload)) {
            Some(input) => match line_from(input) {
                Some(line) => Msg::AtRxLine(line),
                None => Msg::ErrWOCommand(Error::InvalidDataLenght),
            },
            None => Msg::ErrWOCommand(Error::InvalidUtf8),
        },
        None => Msg::ErrWOCommand(Error::InvalidSysEx),
    }
}

/// Turns a message of the USB queue into packets for the host.
pub fn usb_tx(msg: Msg) -> (action: UsbAction)
    ensures
        action@ == usb_tx_spec(msg@),
{
    match msg {
        Msg::UsbTxLine(line) => match build_sysex(line_as_str(&line)) {
            Some(sysex) => {
                let pkts = sysex_to_usb_midi_packets(frame_as_slice(&sysex));
                assert(packet_list(pkts) =~= packets(frame_bytes(sysex)));
                UsbAction::Write(pkts)
            },
            None => UsbAction::Unsendable,
        },
        _ => UsbAction::Idle,
    }
}

/// Handles one event of the USB task.
pub fn usb_io_task(event: UsbEvent<'_>) -> (action: UsbAction)
    ensures
        action@ == match event {
            UsbEvent::Packet(data) => UsbActionView::ToAt(usb_rx_spec(data@)),
            UsbEvent::Outgoing(msg) => usb_tx_spec(msg@),
        },
{
    match event {
        UsbEvent::Packet(data) => UsbAction::ToAt(usb_rx(data)),
        UsbEvent::Outgoing(msg) => usb_tx(msg),
    }
}

} // verus!
