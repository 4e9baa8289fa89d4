use vstd::prelude::*;
use crate::commands::{
    brightness_report, clear_all_report, clear_zone_report, image_data_report,
    initiate_background_report, initiate_zone_report, refresh_message, wake_screen_message,
    clear_all_images_command_factory, clear_display_zone_image_command_factory,
    initiate_set_background_command_factory, initiate_set_display_zone_image_command_factory,
    padded, refresh_command_factory, send_image_data_packet_command_factory,
    set_brightness_command_factory, wake_screen_command_factory, Command, BUFFER_SIZE_1025,
    IMAGE_DATA_PACKET_LENGTH,
};
use crate::display_zones::DisplayZones;
use crate::inputs::{InputActions, BUFFER_SIZE_13};

verus! {

/// Why the transport to the device failed.
#[derive(Debug, Clone, PartialEq, Eq)]
pub enum TransportError {
    /// The device is gone; it has to be found and set up again.
    Disconnected,
    /// Any other failure, with the transport's description.
    Other(String),
}

/// Raw reads and writes of device reports.
pub trait HidDeviceOperations {
    /// A read of this transport can give `r`, leaving `report` in the buffer.
    /// A transport that says nothing more admits every outcome.
    open spec fn read_gives(&self, r: Result<usize, TransportError>, report: Seq<u8>) -> bool {
        true
    }

    /// Writing `data` to this transport can give `r`. A transport that says
    /// nothing more admits every outcome.
    open spec fn write_gives(&self, data: Seq<u8>, r: Result<usize, TransportError>) -> bool {
        true
    }

    /// Reads one report into `buffer`, without waiting; a buffer left all
    /// zero means that nothing was available.
    fn read(&self, buffer: &mut [u8]) -> (r: Result<usize, TransportError>)
        ensures
            final(buffer)@.len() == old(buffer)@.len(),
            self.read_gives(r, final(buffer)@),
    ;

    /// Writes one report.
    fn write(&self, data: &[u8]) -> (r: Result<usize, TransportError>)
        ensures
            self.write_gives(data@, r),
    ;
}

/// Receives each input event the device reports.
pub trait InputHandler {
    fn handle(&self, action: InputActions);
}

/// An input handler that calls a function, which must accept every event.
pub struct FunctionHandler<F: Fn(InputActions)> {
    handler: F,
}

impl<F: Fn(InputActions)> FunctionHandler<F> {
    #[verifier::type_invariant]
    spec fn accepts_every_event(&self) -> bool {
        forall|a: InputActions| self.handler.requires((a,))
    }

    pub fn new(handler: F) -> (r: Self)
        requires
            forall|a: InputActions| handler.requires((a,)),
    {
        Self { handler }
    }
}

impl<F: Fn(InputActions)> InputHandler for FunctionHandler<F> {
    fn handle(&self, action: InputActions) {
        proof {
            use_type_invariant(self);
        }
        (self.handler)(action);
    }
}

/// Whether every byte of `report` is zero.
pub open spec fn all_zero(report: Seq<u8>) -> bool {
    forall|i: int| 0 <= i < report.len() ==> report[i] == 0u8
}

/// The event an input report carries: none for an all-zero report, which
/// means that nothing was available, else the decoded event.
pub fn report_event(report: [u8; BUFFER_SIZE_13]) -> (r: Option<InputActions>)
    ensures
        all_zero(report@) ==> r is None,
        !all_zero(report@) ==> r == Some(InputActions::decoded(report@)),
{
    let mut i: usize = 0;
    while i < BUFFER_SIZE_13
        invariant
            i <= BUFFER_SIZE_13,
            report@.len() == BUFFER_SIZE_13,
            forall|j: int| 0 <= j < i ==> report@[j] == 0u8,
        decreases BUFFER_SIZE_13 - i,
    {
        if report[i] != 0 {
            return Some(InputActions::from(report));
        }
        i = i + 1;
    }
    None
}

/// The brightness actually sent for a requested value: values above 100
/// become 0.
pub fn clamp_brightness(brightness: u8) -> (r: u8)
    ensures
        r == (if brightness <= 100 { brightness } else { 0u8 }),
{
    if brightness <= 100 {
        brightness
    } else {
        0
    }
}

/// The image bytes that packet number `index` carries: 1024 bytes from
/// `index * 1024` on, zero past the end of the image.
pub open spec fn packet_bytes(image: Seq<u8>, index: int) -> Seq<u8> {
    padded(image.subrange(index * 1024, if (index + 1) * 1024 <= image.len() { (index + 1) * 1024 } else { image.len() as int }), 1024)
}

/// The number of packets an image of `len` bytes is sent in.
pub open spec fn packet_count(len: int) -> int {
    (len + 1023) / 1024
}

/// The data of packet `index` of `image`.
pub fn image_packet(image: &[u8], index: usize) -> (r: [u8; IMAGE_DATA_PACKET_LENGTH])
    requires
        index * 1024 < image@.len(),
    ensures
        r@ == packet_bytes(image@, index as int),
{
    let len = image.len();
    let start = index * 1024;
    let end = if len - start >= 1024 { start + 1024 } else { len };
    let mut packet = [0u8; IMAGE_DATA_PACKET_LENGTH];
    let mut i: usize = 0;
    while i < end - start
        invariant
            start == index * 1024,
            start < end <= image@.len(),
            end - start <= 1024,
            i <= end - start,
            packet@.len() == 1024,
            forall|j: int| 0 <= j < i ==> packet@[j] == image@[start + j],
            forall|j: int| i <= j < 1024 ==> packet@[j] == 0u8,
        decreases end - start - i,
    {
        packet[i] = image[start + i];
        i = i + 1;
    }
    assert(packet@ =~= packet_bytes(image@, index as int));
    packet
}

/// The device: its transport and the handler of its input events.
pub struct Device<H: HidDeviceOperations, I: InputHandler> {
    pub hid_device: H,
    pub handler: I,
}

impl<H: HidDeviceOperations, I: InputHandler> Device<H, I> {
    /// A device over an opened transport; `handler` receives each input event.
    pub fn new(hid_device: H, handler: I) -> (r: Self)
        ensures
            r.hid_device == hid_device,
            r.handler == handler,
    {
        Self { hid_device, handler }
    }

    pub fn handler(&self) -> (r: &I)
        ensures
            *r == self.handler,
    {
        &self.handler
    }

    /// Replaces the input handler.
    pub fn update_handler(&mut self, handler: I)
        ensures
            final(self).handler == handler,
            final(self).hid_device == old(self).hid_device,
    {
        self.handler = handler;
    }

    /// Reads one input report and hands its event to the handler; an
    /// all-zero report means that nothing was available. A transport failure,
    /// the device's disconnection included, is returned.
    pub fn read_input(&self) -> (r: Result<(), TransportError>)
        ensures
            exists|res: Result<usize, TransportError>, report: Seq<u8>|
                self.hid_device.read_gives(res, report) && (res matches Err(e) ==> r == Err::<(), TransportError>(e))
                    && (res is Ok ==> r is Ok),
    {
        let mut buffer = [0u8; BUFFER_SIZE_13];
        match self.hid_device.read(&mut buffer) {
            Ok(_) => {},
            Err(e) => {
                return Err(e);
            },
        }
        if let Some(action) = report_event(buffer) {
            self.handler.handle(action);
        }
        Ok(())
    }

    /// Sets the display brightness in percent; a value above 100 is sent as 0.
    pub fn set_brightness(&self, brightness: u8) -> (r: Result<usize, TransportError>)
        ensures
            self.hid_device.write_gives(brightness_report(brightness), r),
    {
        let command = set_brightness_command_factory(clamp_brightness(brightness));
        command.execute(|buf: &[u8; 513]| -> (w: Result<usize, TransportError>)
            ensures
                self.hid_device.write_gives(buf@, w),
            { self.hid_device.write(buf) })
    }

    /// Wakes the device from its sleep state.
    pub fn wake_screen(&self) -> (r: Result<usize, TransportError>)
        ensures
            self.hid_device.write_gives(padded(wake_screen_message(), 513), r),
    {
        let command = wake_screen_command_factory();
        command.execute(|buf: &[u8; 513]| -> (w: Result<usize, TransportError>)
            ensures
                self.hid_device.write_gives(buf@, w),
            { self.hid_device.write(buf) })
    }

    /// Flushes pending display changes to the screen.
    pub fn refresh(&self) -> (r: Result<usize, TransportError>)
        ensures
            self.hid_device.write_gives(padded(refresh_message(), 513), r),
    {
        let command = refresh_command_factory();
        command.execute(|buf: &[u8; 513]| -> (w: Result<usize, TransportError>)
            ensures
                self.hid_device.write_gives(buf@, w),
            { self.hid_device.write(buf) })
    }

    /// Clears every zone image.
    pub fn clear_all_images(&self) -> (r: Result<usize, TransportError>)
        ensures
            self.hid_device.write_gives(clear_all_report(), r),
    {
        let command = clear_all_images_command_factory();
        command.execute(|buf: &[u8; 513]| -> (w: Result<usize, TransportError>)
            ensures
                self.hid_device.write_gives(buf@, w),
            { self.hid_device.write(buf) })
    }

    /// Clears the image of one zone.
    pub fn clear_display_zone_image(&self, display_zone: DisplayZones) -> (r: Result<
        usize,
        TransportError,
    >)
        ensures
            self.hid_device.write_gives(clear_zone_report(display_zone), r),
    {
        let command = clear_display_zone_image_command_factory(display_zone);
        command.execute(|buf: &[u8; 513]| -> (w: Result<usize, TransportError>)
            ensures
                self.hid_device.write_gives(buf@, w),
            { self.hid_device.write(buf) })
    }

    /// Uploads a background image: its size first, then its bytes in packets.
    pub fn set_background_image(&self, image: &[u8]) -> (r: Result<usize, TransportError>)
        requires
            image@.len() <= u32::MAX,
        ensures
            self.uploaded(initiate_background_report(image@.len() as u32), image@, r),
    {
        let init_command = initiate_set_background_command_factory(image.len() as u32);
        self.write_image_to_device_command(init_command, image)
    }

    /// Uploads the image of one zone: its size and zone first, then its bytes
    /// in packets.
    pub fn set_display_zone_image(&self, display_zone: DisplayZones, image: &[u8]) -> (r: Result<
        usize,
        TransportError,
    >)
        requires
            image@.len() <= u32::MAX,
        ensures
            self.uploaded(initiate_zone_report(image@.len() as u32, display_zone), image@, r),
    {
        let init_command = initiate_set_display_zone_image_command_factory(
            image.len() as u32,
            display_zone,
        );
        self.write_image_to_device_command(init_command, image)
    }

    /// Packet `i` of `image` was written to the transport.
    pub open spec fn packet_written(&self, image: Seq<u8>, i: int) -> bool {
        exists|w: Result<usize, TransportError>| self.hid_device.write_gives(image_data_report(packet_bytes(image, i)), w)
    }

    /// The outcome of uploading `image` after the initiation report `init`:
    /// the initiation was written first, and a failure there is returned
    /// and ends the upload; otherwise every packet was written in turn, and
    /// the result of the last one is returned, `Ok(0)` when there is none.
    pub open spec fn uploaded(&self, init: Seq<u8>, image: Seq<u8>, r: Result<usize, TransportError>) -> bool {
        exists|first: Result<usize, TransportError>|
            self.hid_device.write_gives(init, first) && {
                &&& first matches Err(e) ==> r == Err::<usize, TransportError>(e)
                &&& first is Ok ==> {
                    &&& forall|i: int| 0 <= i < packet_count(image.len() as int) ==> #[trigger] self.packet_written(image, i)
                    &&& packet_count(image.len() as int) == 0 ==> r == Ok::<usize, TransportError>(0)
                    &&& packet_count(image.len() as int) > 0 ==> self.hid_device.write_gives(
                        image_data_report(packet_bytes(image, packet_count(image.len() as int) - 1)),
                        r,
                    )
                }
            }
    }

    /// Sends the initiation, then one packet per 1024 image bytes, the last
    /// one padded with zeros.
    fn write_image_to_device_command<C: Command<BUFFER_SIZE_1025, Result<usize, TransportError>>>(
        &self,
        init_command: C,
        image: &[u8],
    ) -> (r: Result<usize, TransportError>)
        ensures
            self.uploaded(init_command.report(), image@, r),
    {
        let first = init_command.execute(|buf: &[u8; 1025]| -> (w: Result<usize, TransportError>)
            ensures
                self.hid_device.write_gives(buf@, w),
            { self.hid_device.write(buf) });
        match first {
            Ok(_) => {},
            Err(e) => {
                assert(self.uploaded(init_command.report(), image@, Err(e)));
                return Err(e);
            },
        }
        let mut last_result: Result<usize, TransportError> = Ok(0);
        let packets: usize = if image.len() % 1024 == 0 {
            image.len() / 1024
        } else {
            image.len() / 1024 + 1
        };
        let mut index: usize = 0;
        while index < packets
            invariant
                packets as int == packet_count(image@.len() as int),
                index <= packets,
                self.hid_device.write_gives(init_command.report(), first),
                first is Ok,
                forall|i: int| 0 <= i < index ==> #[trigger] self.packet_written(image@, i),
                index == 0 ==> last_result == Ok::<usize, TransportError>(0),
                index > 0 ==> self.hid_device.write_gives(image_data_report(packet_bytes(image@, index - 1)), last_result),
            decreases packets - index,
        {
            let packet = image_packet(image, index);
            let command = send_image_data_packet_command_factory(packet);
            last_result = command.execute(|buf: &[u8; 1025]| -> (w: Result<usize, TransportError>)
                ensures
                    self.hid_device.write_gives(buf@, w),
                { self.hid_device.write(buf) });
            assert(packet@ == packet_bytes(image@, index as int));
            assert(self.hid_device.write_gives(image_data_report(packet_bytes(image@, index as int)), last_result));
            proof {
                let done = index as int;
                assert forall|i: int| 0 <= i < done + 1 implies #[trigger] self.packet_written(image@, i) by {
                    if i == done {
                        assert(self.hid_device.write_gives(image_data_report(packet_bytes(image@, i)), last_result));
                    }
                }
            }
            index = index + 1;
        }
        assert(self.hid_device.write_gives(init_command.report(), first));
        assert(self.uploaded(init_command.report(), image@, last_result));
        last_result
    }
}

} // verus!
