use vstd::prelude::*;
use crate::display_zones::{DisplayZones, zone_id};

verus! {

/// Size of the report that carries control commands.
pub const BUFFER_SIZE_513: usize = 513;

/// Size of the report that carries image uploads.
pub const BUFFER_SIZE_1025: usize = 1025;

/// Bytes of image data carried by one upload packet.
pub const IMAGE_DATA_PACKET_LENGTH: usize = 1024;

/// `message` written from the start of an `n`-byte buffer, cut at `n`, the
/// rest zero.
pub open spec fn padded(message: Seq<u8>, n: nat) -> Seq<u8> {
    Seq::new(n, |i: int| if i < message.len() { message[i] } else { 0u8 })
}

/// `\0CRT\0\0`: the prefix of every command.
pub open spec fn crt_prefix() -> Seq<u8> {
    seq![0u8, 0x43, 0x52, 0x54, 0, 0]
}

/// `\0CRT\0\0DIS`: wake the screen.
pub open spec fn wake_screen_message() -> Seq<u8> {
    crt_prefix() + seq![0x44u8, 0x49, 0x53]
}

/// `\0CRT\0\0STP`: flush pending display changes.
pub open spec fn refresh_message() -> Seq<u8> {
    crt_prefix() + seq![0x53u8, 0x54, 0x50]
}

/// `\0CRT\0\0LIG\0\0`: set the brightness, followed by the value.
pub open spec fn set_brightness_message() -> Seq<u8> {
    crt_prefix() + seq![0x4Cu8, 0x49, 0x47, 0, 0]
}

/// `\0CRT\0\0CLE\0\0\0`: clear an image, followed by the zone (0xFF for all).
pub open spec fn clear_key_message() -> Seq<u8> {
    crt_prefix() + seq![0x43u8, 0x4C, 0x45, 0, 0, 0]
}

/// `\0CRT\0\0LOG`: start a background upload, followed by size and 0x01.
pub open spec fn initiate_set_background_image_message() -> Seq<u8> {
    crt_prefix() + seq![0x4Cu8, 0x4F, 0x47]
}

/// `\0CRT\0\0BAT`: start a zone upload, followed by size and zone.
pub open spec fn initiate_set_display_zone_image_message() -> Seq<u8> {
    crt_prefix() + seq![0x42u8, 0x41, 0x54]
}

/// The four bytes of `v`, most significant first.
pub open spec fn be32(v: u32) -> Seq<u8> {
    seq![
        ((v as int / 0x1000000) % 0x100) as u8,
        ((v as int / 0x10000) % 0x100) as u8,
        ((v as int / 0x100) % 0x100) as u8,
        (v as int % 0x100) as u8,
    ]
}

/// The report that sets the brightness to `b`, where out-of-range values
/// are sent as 0.
pub open spec fn brightness_report(b: u8) -> Seq<u8> {
    padded(set_brightness_message().push(if b <= 100 { b } else { 0u8 }), 513)
}

/// The brightness report is 513 bytes long and carries at its brightness
/// position, right after the command header, the requested value when it is
/// at most 100 and 0 otherwise.
pub proof fn lemma_brightness_byte(b: u8)
    ensures
        brightness_report(b).len() == 513,
        brightness_report(b)[11] == (if b <= 100 { b } else { 0u8 }),
        brightness_report(b).subrange(0, 11) == set_brightness_message(),
{
    assert(brightness_report(b).subrange(0, 11) =~= set_brightness_message());
}

/// The report that clears the image of one zone.
pub open spec fn clear_zone_report(zone: DisplayZones) -> Seq<u8> {
    padded(clear_key_message().push(zone_id(zone)), 513)
}

/// The report that clears every zone.
pub open spec fn clear_all_report() -> Seq<u8> {
    padded(clear_key_message().push(0xFFu8), 513)
}

/// The report that announces a background image of `size` bytes.
pub open spec fn initiate_background_report(size: u32) -> Seq<u8> {
    padded(initiate_set_background_image_message() + be32(size) + seq![1u8], 1025)
}

/// The report that announces an image of `size` bytes for `zone`.
pub open spec fn initiate_zone_report(size: u32, zone: DisplayZones) -> Seq<u8> {
    padded(initiate_set_display_zone_image_message() + be32(size) + seq![zone_id(zone)], 1025)
}

/// The report that carries one packet of image data after a zero byte.
pub open spec fn image_data_report(packet: Seq<u8>) -> Seq<u8> {
    seq![0u8] + packet
}

/// Generates a fixed-size buffer holding `message` in its lower bytes and
/// zeros after it; a message longer than the buffer is cut.
pub fn create_output_buffer<const N: usize>(message: &[u8]) -> (r: [u8; N])
    ensures
        r@ == padded(message@, N as nat),
{
    let mut buffer = [0u8; N];
    let length: usize = if message.len() < N { message.len() } else { N };
    let mut i: usize = 0;
    while i < length
        invariant
            length <= N,
            length <= message@.len(),
            i <= length,
            buffer@.len() == N,
            forall|j: int| 0 <= j < i ==> buffer@[j] == message@[j],
            forall|j: int| i <= j < N ==> buffer@[j] == 0u8,
        decreases length - i,
    {
        buffer[i] = message[i];
        i = i + 1;
    }
    assert(buffer@ =~= padded(message@, N as nat));
    buffer
}

/// Writes the big-endian bytes of `v` at `at..at + 4`.
fn write_be32<const N: usize>(buffer: &mut [u8; N], at: usize, v: u32)
    requires
        at + 4 <= N,
    ensures
        final(buffer)@ == old(buffer)@.update(at as int, be32(v)[0]).update(
            at + 1,
            be32(v)[1],
        ).update(at + 2, be32(v)[2]).update(at + 3, be32(v)[3]),
{
    buffer[at] = (v / 0x1000000) as u8;
    buffer[at + 1] = ((v / 0x10000) % 0x100) as u8;
    buffer[at + 2] = ((v / 0x100) % 0x100) as u8;
    buffer[at + 3] = (v % 0x100) as u8;
}

/// A command report of `N` bytes.
pub trait Payload<const N: usize> {
    /// The bytes this payload is sent as.
    spec fn report(&self) -> Seq<u8>;

    fn generate(&self) -> (r: [u8; N])
        ensures
            r@ == self.report(),
    ;
}

/// Wakes the device from its sleep state.
pub struct WakeScreen;

impl Payload<BUFFER_SIZE_513> for WakeScreen {
    open spec fn report(&self) -> Seq<u8> {
        padded(wake_screen_message(), 513)
    }

    fn generate(&self) -> (r: [u8; BUFFER_SIZE_513]) {
        let m: [u8; 9] = [0, 0x43, 0x52, 0x54, 0, 0, 0x44, 0x49, 0x53];
        assert(m@ =~= wake_screen_message());
        create_output_buffer(&m)
    }
}

/// Flushes pending display changes to the screen.
pub struct Refresh;

impl Payload<BUFFER_SIZE_513> for Refresh {
    open spec fn report(&self) -> Seq<u8> {
        padded(refresh_message(), 513)
    }

    fn generate(&self) -> (r: [u8; BUFFER_SIZE_513]) {
        let m: [u8; 9] = [0, 0x43, 0x52, 0x54, 0, 0, 0x53, 0x54, 0x50];
        assert(m@ =~= refresh_message());
        create_output_buffer(&m)
    }
}

/// Sets the display brightness.
pub struct SetBrightness {
    pub brightness: u8,
}

impl SetBrightness {
    /// A brightness payload for a value 0 to 100; a larger value is sent as 0.
    pub fn new(brightness: u8) -> (r: Self)
        ensures
            r.brightness == brightness,
    {
        Self { brightness }
    }
}

impl Payload<BUFFER_SIZE_513> for SetBrightness {
    open spec fn report(&self) -> Seq<u8> {
        brightness_report(self.brightness)
    }

    fn generate(&self) -> (r: [u8; BUFFER_SIZE_513]) {
        let value: u8 = if self.brightness <= 100 { self.brightness } else { 0 };
        let m: [u8; 12] = [0, 0x43, 0x52, 0x54, 0, 0, 0x4C, 0x49, 0x47, 0, 0, value];
        assert(m@ =~= set_brightness_message().push(value));
        create_output_buffer(&m)
    }
}

/// Clears every zone image.
pub struct ClearAllImages;

impl Payload<BUFFER_SIZE_513> for ClearAllImages {
    open spec fn report(&self) -> Seq<u8> {
        clear_all_report()
    }

    fn generate(&self) -> (r: [u8; BUFFER_SIZE_513]) {
        let m: [u8; 13] = [0, 0x43, 0x52, 0x54, 0, 0, 0x43, 0x4C, 0x45, 0, 0, 0, 0xFF];
        assert(m@ =~= clear_key_message().push(0xFFu8));
        create_output_buffer(&m)
    }
}

/// Clears the image of one zone.
pub struct ClearDisplayZoneImage {
    pub display_zone: DisplayZones,
}

impl ClearDisplayZoneImage {
    pub fn new(display_zone: DisplayZones) -> (r: Self)
        ensures
            r.display_zone == display_zone,
    {
        Self { display_zone }
    }
}

impl Payload<BUFFER_SIZE_513> for ClearDisplayZoneImage {
    open spec fn report(&self) -> Seq<u8> {
        clear_zone_report(self.display_zone)
    }

    fn generate(&self) -> (r: [u8; BUFFER_SIZE_513]) {
        let id = self.display_zone.to_wire();
        let m: [u8; 13] = [0, 0x43, 0x52, 0x54, 0, 0, 0x43, 0x4C, 0x45, 0, 0, 0, id];
        assert(m@ =~= clear_key_message().push(id));
        create_output_buffer(&m)
    }
}

/// Announces a background image upload of a given size.
pub struct InitiateSetBackgroundImage {
    pub image_size_bytes: u32,
}

impl InitiateSetBackgroundImage {
    pub fn new(image_size_bytes: u32) -> (r: Self)
        ensures
            r.image_size_bytes == image_size_bytes,
    {
        Self { image_size_bytes }
    }
}

impl Payload<BUFFER_SIZE_1025> for InitiateSetBackgroundImage {
    open spec fn report(&self) -> Seq<u8> {
        initiate_background_report(self.image_size_bytes)
    }

    fn generate(&self) -> (r: [u8; BUFFER_SIZE_1025]) {
        let m: [u8; 9] = [0, 0x43, 0x52, 0x54, 0, 0, 0x4C, 0x4F, 0x47];
        assert(m@ =~= initiate_set_background_image_message());
        let mut buffer: [u8; BUFFER_SIZE_1025] = create_output_buffer(&m);
        write_be32(&mut buffer, 9, self.image_size_bytes);
        buffer[13] = 0x01;
        assert(buffer@ =~= initiate_background_report(self.image_size_bytes));
        buffer
    }
}

/// Announces an image upload of a given size for one zone.
pub struct InitiateDisplayZoneImage {
    pub image_size_bytes: u32,
    pub display_zone: DisplayZones,
}

impl InitiateDisplayZoneImage {
    pub fn new(image_size_bytes: u32, display_zone: DisplayZones) -> (r: Self)
        ensures
            r.image_size_bytes == image_size_bytes,
            r.display_zone == display_zone,
    {
        Self { image_size_bytes, display_zone }
    }
}

impl Payload<BUFFER_SIZE_1025> for InitiateDisplayZoneImage {
    open spec fn report(&self) -> Seq<u8> {
        initiate_zone_report(self.image_size_bytes, self.display_zone)
    }

    fn generate(&self) -> (r: [u8; BUFFER_SIZE_1025]) {
        let m: [u8; 9] = [0, 0x43, 0x52, 0x54, 0, 0, 0x42, 0x41, 0x54];
        assert(m@ =~= initiate_set_display_zone_image_message());
        let mut buffer: [u8; BUFFER_SIZE_1025] = create_output_buffer(&m);
        write_be32(&mut buffer, 9, self.image_size_bytes);
        buffer[13] = self.display_zone.to_wire();
        assert(buffer@ =~= initiate_zone_report(self.image_size_bytes, self.display_zone));
        buffer
    }
}

/// One packet of image data.
pub struct SendImageDataPacket {
    pub packet: [u8; IMAGE_DATA_PACKET_LENGTH],
}

impl SendImageDataPacket {
    pub fn new(packet: [u8; IMAGE_DATA_PACKET_LENGTH]) -> (r: Self)
        ensures
            r.packet == packet,
    {
        Self { packet }
    }
}

impl Payload<BUFFER_SIZE_1025> for SendImageDataPacket {
    open spec fn report(&self) -> Seq<u8> {
        image_data_report(self.packet@)
    }

    fn generate(&self) -> (r: [u8; BUFFER_SIZE_1025]) {
        let mut buffer = [0u8; BUFFER_SIZE_1025];
        let mut i: usize = 0;
        while i < IMAGE_DATA_PACKET_LENGTH
            invariant
                i <= IMAGE_DATA_PACKET_LENGTH,
                buffer@.len() == BUFFER_SIZE_1025,
                buffer@[0] == 0u8,
                forall|j: int| 0 <= j < i ==> buffer@[j + 1] == self.packet@[j],
            decreases IMAGE_DATA_PACKET_LENGTH - i,
        {
            buffer[i + 1] = self.packet[i];
            i = i + 1;
        }
        assert(buffer@ =~= image_data_report(self.packet@));
        buffer
    }
}

/// A report that can be handed to a writer, which decides the result.
pub trait Command<const N: usize, R> {
    /// The bytes handed to the writer.
    spec fn report(&self) -> Seq<u8>;

    /// Hands the report to `write_callback` once and returns what it returned.
    fn execute<F>(&self, write_callback: F) -> (r: R) where F: Fn(&[u8; N]) -> R
        requires
            forall|b: [u8; N]| b@ == self.report() ==> write_callback.requires((&b,)),
        ensures
            exists|b: [u8; N]| b@ == self.report() && write_callback.ensures((&b,), r),
    ;
}

/// A command that sends one payload.
pub struct PayloadCommand<P> {
    pub payload: P,
}

impl<const N: usize, R, P: Payload<N>> Command<N, R> for PayloadCommand<P> {
    open spec fn report(&self) -> Seq<u8> {
        self.payload.report()
    }

    fn execute<F>(&self, write_callback: F) -> (r: R) where F: Fn(&[u8; N]) -> R {
        let buffer = self.payload.generate();
        write_callback(&buffer)
    }
}

pub fn wake_screen_command_factory() -> (r: PayloadCommand<WakeScreen>) {
    PayloadCommand { payload: WakeScreen }
}

pub fn refresh_command_factory() -> (r: PayloadCommand<Refresh>) {
    PayloadCommand { payload: Refresh }
}

pub fn set_brightness_command_factory(brightness: u8) -> (r: PayloadCommand<SetBrightness>)
    ensures
        r.payload.report() == brightness_report(brightness),
{
    PayloadCommand { payload: SetBrightness::new(brightness) }
}

pub fn clear_all_images_command_factory() -> (r: PayloadCommand<ClearAllImages>) {
    PayloadCommand { payload: ClearAllImages }
}

pub fn initiate_set_background_command_factory(image_size_bytes: u32) -> (r: PayloadCommand<
    InitiateSetBackgroundImage,
>)
    ensures
        r.payload.report() == initiate_background_report(image_size_bytes),
{
    PayloadCommand { payload: InitiateSetBackgroundImage::new(image_size_bytes) }
}

pub fn initiate_set_display_zone_image_command_factory(
    image_size_bytes: u32,
    display_zone: DisplayZones,
) -> (r: PayloadCommand<InitiateDisplayZoneImage>)
    ensures
        r.payload.report() == initiate_zone_report(image_size_bytes, display_zone),
{
    PayloadCommand { payload: InitiateDisplayZoneImage::new(image_size_bytes, display_zone) }
}

pub fn send_image_data_packet_command_factory(packet: [u8; IMAGE_DATA_PACKET_LENGTH]) -> (r:
    PayloadCommand<SendImageDataPacket>)
    ensures
        r.payload.report() == image_data_report(packet@),
{
    PayloadCommand { payload: SendImageDataPacket::new(packet) }
}

pub fn clear_display_zone_image_command_factory(display_zone: DisplayZones) -> (r: PayloadCommand<
    ClearDisplayZoneImage,
>)
    ensures
        r.payload.report() == clear_zone_report(display_zone),
{
    PayloadCommand { payload: ClearDisplayZoneImage::new(display_zone) }
}

} // verus!
