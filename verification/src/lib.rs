//! Firmware-update trigger for a bootloader that reads its orders from a flash page.
//!
//! An application hands the driver a 16-byte update descriptor. On command the
//! driver reads the bootloader flags page, writes the descriptor and an enable
//! flag into the last 20 bytes of that page, and writes the page back. The flash
//! controller works asynchronously, so the driver is a state machine: every
//! operation takes an event and answers with the flash request to issue next.
pub mod codec;
pub mod io;
pub mod page;
pub mod signpost_tock_firmware_update;
