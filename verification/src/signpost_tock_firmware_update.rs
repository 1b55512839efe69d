//! The driver that arms a firmware update on command.
//!
//! The flash controller is not called from here. Each operation answers with the
//! `FlashAction` that the caller has to issue, and the caller reports the
//! completion back with `on_page_read_complete` or `on_page_write_complete`.
use crate::codec::{UpdateRequest, CONFIG_LEN};
use crate::page::{patched, PageBuffer, FLAGS_PAGE, PAGE_SIZE};
use vstd::prelude::*;

verus! {

/// Command identifier that asks whether the driver is present.
pub const COMMAND_QUERY: usize = 0;

/// Command identifier that triggers the update.
pub const COMMAND_TRIGGER: usize = 1;

/// Where the driver stands in its one transaction.
#[derive(Clone, Copy, Debug, PartialEq, Eq, Structural)]
pub enum State {
    /// The driver holds the page buffer; nothing is in flight.
    Idle,
    /// The flags page is being read.
    AwaitingPageForPatch,
    /// The patched flags page is being written.
    AwaitingWriteCompletion,
}

/// Why the driver refused a call.
#[derive(Clone, Copy, Debug, PartialEq, Eq, Structural)]
pub enum UpdateError {
    /// The configuration buffer does not hold exactly sixteen bytes.
    InvalidSize,
    /// The page buffer is away with the flash controller.
    ReservationConflict,
    /// An update was triggered before any configuration was provided.
    NoConfiguration,
    /// The command identifier is not one the driver knows.
    UnsupportedCommand,
}

/// How the flash controller says an operation ended.
#[derive(Clone, Copy, Debug, PartialEq, Eq, Structural)]
pub enum FlashStatus {
    /// The operation was carried out.
    CommandComplete,
    /// The operation failed.
    FlashError,
}

/// A request to the flash controller. The page buffer goes with it and comes back
/// with the completion.
#[derive(Debug, PartialEq, Eq)]
pub enum FlashAction {
    /// Read the page with this index into the buffer.
    ReadPage { page_index: usize, buffer: PageBuffer },
    /// Write the buffer to the page with this index.
    WritePage { page_index: usize, buffer: PageBuffer },
}

/// The driver as a mathematical value.
pub struct DriverView {
    /// Where the driver stands in its transaction.
    pub state: State,
    /// The configuration buffer provided last, if any.
    pub config: Option<Seq<u8>>,
    /// The descriptor of the transaction triggered last; all zero before the first.
    pub transaction: UpdateRequest,
    /// The contents of the page buffer while the driver holds it.
    pub page: Option<Seq<u8>>,
}

impl DriverView {
    /// What holds of every driver: a stored configuration has sixteen bytes, the
    /// driver holds the page buffer exactly while it is idle, and nothing is in
    /// flight that was not configured first.
    pub open spec fn wf(self) -> bool {
        &&& self.config matches Some(c) ==> c.len() == CONFIG_LEN
        &&& self.page matches Some(p) ==> p.len() == PAGE_SIZE
        &&& self.state is Idle <==> self.page is Some
        &&& !(self.state is Idle) ==> self.config is Some
    }
}

/// Accepts an update descriptor from an application and, on command, stages it in
/// the bootloader's flags page with a read, a patch and a write of that page.
pub struct SignpostTockFirmwareUpdate {
    config: Option<[u8; CONFIG_LEN]>,
    pagebuffer: Option<PageBuffer>,
    state: State,
    request: UpdateRequest,
}

impl View for SignpostTockFirmwareUpdate {
    type V = DriverView;

    closed spec fn view(&self) -> DriverView {
        DriverView {
            state: self.state,
            config: match self.config {
                Some(c) => Some(c@),
                None => None,
            },
            transaction: self.request,
            page: match self.pagebuffer {
                Some(p) => Some(p@),
                None => None,
            },
        }
    }
}

impl SignpostTockFirmwareUpdate {
    /// The driver is in a state that `new` and its operations can lead to.
    pub open spec fn inv(&self) -> bool {
        self@.wf()
    }

    /// A driver that owns `buffer`, is idle and has no configuration.
    pub fn new(buffer: PageBuffer) -> (driver: SignpostTockFirmwareUpdate)
        ensures
            driver.inv(),
            driver@ == (DriverView {
                state: State::Idle,
                config: None,
                transaction: UpdateRequest { source: 0, destination: 0, length: 0, crc: 0 },
                page: Some(buffer@),
            }),
    {
        SignpostTockFirmwareUpdate {
            config: None,
            pagebuffer: Some(buffer),
            state: State::Idle,
            request: UpdateRequest { source: 0, destination: 0, length: 0, crc: 0 },
        }
    }

    /// Where the driver stands in its transaction.
    pub fn state(&self) -> (s: State)
        ensures
            s == self@.state,
    {
        self.state
    }

    /// The configuration provided last, if any.
    pub fn pending_config(&self) -> (c: Option<[u8; CONFIG_LEN]>)
        ensures
            c matches Some(bytes) ==> self@.config == Some(bytes@),
            c is None ==> self@.config is None,
    {
        self.config
    }

    /// The descriptor of the transaction triggered last; all zero before the first.
    pub fn transaction(&self) -> (t: UpdateRequest)
        ensures
            t == self@.transaction,
    {
        self.request
    }

    /// Whether the driver holds the page buffer.
    pub fn holds_page(&self) -> (held: bool)
        ensures
            held == self@.page is Some,
    {
        self.pagebuffer.is_some()
    }

    /// Stores the sixteen bytes of `buffer` as the pending configuration in place of
    /// any earlier one. A buffer of another length is refused and changes nothing.
    /// No flash request results either way.
    pub fn provide_configuration(&mut self, buffer: &[u8]) -> (r: Result<(), UpdateError>)
        requires
            old(self).inv(),
        ensures
            final(self).inv(),
            buffer@.len() == CONFIG_LEN ==> {
                &&& r is Ok
                &&& final(self)@ == (DriverView { config: Some(buffer@), ..old(self)@ })
            },
            buffer@.len() != CONFIG_LEN ==> {
                &&& r matches Err(UpdateError::InvalidSize)
                &&& final(self)@ == old(self)@
            },
    {
        if buffer.len() == CONFIG_LEN {
            let config: [u8; CONFIG_LEN] = [
                buffer[0],
                buffer[1],
                buffer[2],
                buffer[3],
                buffer[4],
                buffer[5],
                buffer[6],
                buffer[7],
                buffer[8],
                buffer[9],
                buffer[10],
                buffer[11],
                buffer[12],
                buffer[13],
                buffer[14],
                buffer[15],
            ];
            assert(config@ =~= buffer@);
            self.config = Some(config);
            Ok(())
        } else {
            Err(UpdateError::InvalidSize)
        }
    }

    /// Says that the driver is present. Always succeeds.
    pub fn query_capability(&self) -> (r: Result<(), UpdateError>)
        ensures
            r is Ok,
    {
        Ok(())
    }

    /// Starts the transaction for the pending configuration.
    ///
    /// Without a configuration the call fails with `NoConfiguration`; while the
    /// page buffer is away it fails with `ReservationConflict`. A failed call
    /// changes nothing. Otherwise the sixteen bytes are decoded and kept as the
    /// transaction's descriptor, and the page buffer leaves with the request to
    /// read the flags page.
    pub fn trigger_update(&mut self) -> (r: Result<FlashAction, UpdateError>)
        requires
            old(self).inv(),
        ensures
            final(self).inv(),
            old(self)@.config is None ==> {
                &&& r matches Err(UpdateError::NoConfiguration)
                &&& final(self)@ == old(self)@
            },
            !(old(self)@.state is Idle) ==> {
                &&& r matches Err(UpdateError::ReservationConflict)
                &&& final(self)@ == old(self)@
            },
            old(self)@.config is Some && old(self)@.state is Idle ==> {
                &&& r matches Ok(FlashAction::ReadPage { page_index, buffer })
                &&& page_index == FLAGS_PAGE
                &&& Some(buffer@) == old(self)@.page
                &&& final(self)@ == (DriverView {
                    state: State::AwaitingPageForPatch,
                    config: old(self)@.config,
                    transaction: UpdateRequest::spec_decode(old(self)@.config->Some_0),
                    page: None,
                })
            },
    {
        let request = match &self.config {
            None => { return Err(UpdateError::NoConfiguration); },
            Some(buffer) => UpdateRequest::parse(buffer.as_slice()),
        };
        self.do_firmware_update(request)
    }

    /// Takes the page buffer, records `request` as the transaction's descriptor and
    /// asks for the flags page to be read. Fails and changes nothing while the page
    /// buffer is away.
    fn do_firmware_update(&mut self, request: UpdateRequest) -> (r: Result<FlashAction, UpdateError>)
        requires
            old(self).inv(),
            old(self)@.config is Some,
        ensures
            final(self).inv(),
            !(old(self)@.state is Idle) ==> {
                &&& r matches Err(UpdateError::ReservationConflict)
                &&& final(self)@ == old(self)@
            },
            old(self)@.state is Idle ==> {
                &&& r matches Ok(FlashAction::ReadPage { page_index, buffer })
                &&& page_index == FLAGS_PAGE
                &&& Some(buffer@) == old(self)@.page
                &&& final(self)@ == (DriverView {
                    state: State::AwaitingPageForPatch,
                    config: old(self)@.config,
                    transaction: request,
                    page: None,
                })
            },
    {
        match self.pagebuffer.take() {
            None => Err(UpdateError::ReservationConflict),
            Some(pagebuffer) => {
                self.request = request;
                self.state = State::AwaitingPageForPatch;
                // The flags page has the bootloader's orders on it.
                Ok(FlashAction::ReadPage { page_index: FLAGS_PAGE, buffer: pagebuffer })
            },
        }
    }

    /// Takes the flags page as it was read, patches it with the transaction's
    /// descriptor and asks for it to be written back.
    ///
    /// The status that the flash controller reports is not looked at. The patch is
    /// made in whatever state the driver is; a driver that awaited the page now
    /// awaits the end of the write.
    pub fn on_page_read_complete(
        &mut self,
        page: PageBuffer,
        _status: FlashStatus,
    ) -> (action: FlashAction)
        requires
            old(self).inv(),
        ensures
            final(self).inv(),
            ({
                &&& action matches FlashAction::WritePage { page_index, buffer }
                &&& page_index == FLAGS_PAGE
                &&& buffer@ == patched(page@, old(self)@.transaction)
            }),
            final(self)@ == (DriverView {
                state: if old(self)@.state is AwaitingPageForPatch {
                    State::AwaitingWriteCompletion
                } else {
                    old(self)@.state
                },
                ..old(self)@
            }),
    {
        let mut page = page;
        page.apply_update(self.request);
        match self.state {
            State::AwaitingPageForPatch => {
                self.state = State::AwaitingWriteCompletion;
            },
            _ => {},
        }
        FlashAction::WritePage { page_index: FLAGS_PAGE, buffer: page }
    }

    /// Takes note that the write ended. Nothing changes: the page buffer is not
    /// taken back and the driver does not become idle again, because the platform
    /// is expected to reset and hand over to the bootloader.
    pub fn on_page_write_complete(&mut self, _page: PageBuffer, _status: FlashStatus)
        requires
            old(self).inv(),
        ensures
            final(self).inv(),
            final(self)@ == old(self)@,
    {
    }

    /// Takes note that an erase ended. The driver never erases; nothing changes.
    pub fn on_erase_complete(&mut self, _status: FlashStatus)
        requires
            old(self).inv(),
        ensures
            final(self).inv(),
            final(self)@ == old(self)@,
    {
    }

    /// Dispatches a command by its identifier: `COMMAND_QUERY` asks whether the
    /// driver is present, `COMMAND_TRIGGER` triggers the update, anything else is
    /// refused with `UnsupportedCommand`.
    pub fn command(&mut self, command_num: usize) -> (r: Result<Option<FlashAction>, UpdateError>)
        requires
            old(self).inv(),
        ensures
            final(self).inv(),
            command_num == COMMAND_QUERY ==> {
                &&& r matches Ok(None)
                &&& final(self)@ == old(self)@
            },
            command_num != COMMAND_QUERY && command_num != COMMAND_TRIGGER ==> {
                &&& r matches Err(UpdateError::UnsupportedCommand)
                &&& final(self)@ == old(self)@
            },
            command_num == COMMAND_TRIGGER && old(self)@.config is None ==> {
                &&& r matches Err(UpdateError::NoConfiguration)
                &&& final(self)@ == old(self)@
            },
            command_num == COMMAND_TRIGGER && !(old(self)@.state is Idle) ==> {
                &&& r matches Err(UpdateError::ReservationConflict)
                &&& final(self)@ == old(self)@
            },
            command_num == COMMAND_TRIGGER && old(self)@.config is Some
                && old(self)@.state is Idle ==> {
                &&& r matches Ok(Some(FlashAction::ReadPage { page_index, buffer }))
                &&& page_index == FLAGS_PAGE
                &&& Some(buffer@) == old(self)@.page
                &&& final(self)@ == (DriverView {
                    state: State::AwaitingPageForPatch,
                    config: old(self)@.config,
                    transaction: UpdateRequest::spec_decode(old(self)@.config->Some_0),
                    page: None,
                })
            },
    {
        if command_num == COMMAND_QUERY {
            match self.query_capability() {
                Ok(()) => Ok(None),
                Err(e) => Err(e),
            }
        } else if command_num == COMMAND_TRIGGER {
            match self.trigger_update() {
                Ok(action) => Ok(Some(action)),
                Err(e) => Err(e),
            }
        } else {
            Err(UpdateError::UnsupportedCommand)
        }
    }
}

} // verus!
