//! The flash page that carries the bootloader's flags, and the patch that arms an update.
use crate::codec::{byte_of, le_bytes, UpdateRequest};
use vstd::prelude::*;

verus! {

/// Number of bytes in a flash page.
pub const PAGE_SIZE: usize = 512;

/// Index of the page on which the bootloader keeps its flags.
pub const FLAGS_PAGE: usize = 2;

/// Offset in the flags page of the first byte that an update overwrites.
pub const FLAGS_OFFSET: usize = 492;

/// Number of bytes that an update overwrites: the flag word and the descriptor.
pub const FLAGS_LEN: usize = 20;

/// Value of the enable byte that tells the bootloader to install the image.
pub const UPDATE_ENABLED: u8 = 1;

/// The twenty bytes that arm an update: the enable byte, three bytes of padding and
/// the descriptor as four little-endian words.
pub open spec fn flag_block(request: UpdateRequest) -> Seq<u8> {
    seq![UPDATE_ENABLED, 0u8, 0u8, 0u8] + request.spec_encode()
}

/// A page in which the last twenty bytes are replaced by the flag block of `request`.
pub open spec fn patched(page: Seq<u8>, request: UpdateRequest) -> Seq<u8>
    recommends
        page.len() == PAGE_SIZE,
{
    page.subrange(0, FLAGS_OFFSET as int) + flag_block(request)
}

/// The one buffer that holds a flash page while it is read, patched and written.
///
/// It is neither `Clone` nor `Copy`: whoever holds the value owns the page.
#[derive(Debug, PartialEq, Eq)]
pub struct PageBuffer {
    /// The contents of the page.
    pub bytes: [u8; PAGE_SIZE],
}

impl View for PageBuffer {
    type V = Seq<u8>;

    open spec fn view(&self) -> Seq<u8> {
        self.bytes@
    }
}

impl PageBuffer {
    /// Arms the update: sets the enable byte, clears the padding and writes the
    /// descriptor into the last twenty bytes. Every other byte stays as it was.
    pub fn apply_update(&mut self, request: UpdateRequest)
        ensures
            final(self)@ == patched(old(self)@, request),
            final(self)@.len() == PAGE_SIZE,
            forall|i: int| 0 <= i < FLAGS_OFFSET ==> final(self)@[i] == old(self)@[i],
            final(self)@.subrange(FLAGS_OFFSET as int, PAGE_SIZE as int) == flag_block(request),
    {
        self.bytes[492] = UPDATE_ENABLED;
        self.bytes[493] = 0;
        self.bytes[494] = 0;
        self.bytes[495] = 0;
        self.bytes[496] = byte_of(request.source, 0);
        self.bytes[497] = byte_of(request.source, 1);
        self.bytes[498] = byte_of(request.source, 2);
        self.bytes[499] = byte_of(request.source, 3);
        self.bytes[500] = byte_of(request.destination, 0);
        self.bytes[501] = byte_of(request.destination, 1);
        self.bytes[502] = byte_of(request.destination, 2);
        self.bytes[503] = byte_of(request.destination, 3);
        self.bytes[504] = byte_of(request.length, 0);
        self.bytes[505] = byte_of(request.length, 1);
        self.bytes[506] = byte_of(request.length, 2);
        self.bytes[507] = byte_of(request.length, 3);
        self.bytes[508] = byte_of(request.crc, 0);
        self.bytes[509] = byte_of(request.crc, 1);
        self.bytes[510] = byte_of(request.crc, 2);
        self.bytes[511] = byte_of(request.crc, 3);
    }
}

/// The layout of a patched page, byte by byte: the first 492 bytes are those of the
/// page before; byte 492 is the enable byte; bytes 493 to 495 are zero; then come
/// source, destination, length and checksum, each as four bytes, lowest first.
pub proof fn lemma_patched_layout(page: Seq<u8>, request: UpdateRequest)
    requires
        page.len() == PAGE_SIZE,
    ensures
        flag_block(request).len() == FLAGS_LEN,
        patched(page, request).len() == PAGE_SIZE,
        forall|i: int| 0 <= i < 492 ==> patched(page, request)[i] == page[i],
        patched(page, request)[492] == 1,
        patched(page, request)[493] == 0,
        patched(page, request)[494] == 0,
        patched(page, request)[495] == 0,
        patched(page, request).subrange(496, 500) == le_bytes(request.source),
        patched(page, request).subrange(500, 504) == le_bytes(request.destination),
        patched(page, request).subrange(504, 508) == le_bytes(request.length),
        patched(page, request).subrange(508, 512) == le_bytes(request.crc),
        patched(page, request).subrange(496, 512) == request.spec_encode(),
{
}

} // verus!
