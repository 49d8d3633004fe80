//! The device as the console sees it: its connection state, the
//! single-chunk frame of the serial protocol, and the search for the robot
//! among the USB devices of the machine.

use vstd::prelude::*;
use vstd::string::StringExecFns;
use crate::codec::command_record;
use crate::geometry::Geometry;
use crate::joint::JointConfig;
use crate::session::{FeedbackOrder, FrameExchange};

verus! {

/// Bytes in a single-chunk frame: sixty rows of pixels and a command record.
pub const FRAME_SIZE: usize = 43232;

/// Number of frame buffers that the device alternates between.
pub const BUFFER_COUNT: usize = 2;

/// USB vendor id of the robot.
pub const DEVICE_VID: u16 = 0x1001;

/// USB product id of the robot.
pub const DEVICE_PID: u16 = 0x8023;

/// Bulk endpoint that takes the frames.
pub const USB_EP_OUT: u8 = 0x01;

/// Bulk endpoint that gives the feedback.
pub const USB_EP_IN: u8 = 0x81;

/// Timeout of one transfer, in milliseconds.
pub const USB_TIMEOUT_MS: u64 = 1000;

/// Connection state of the device.
#[derive(Debug, Clone, PartialEq)]
pub enum DeviceState {
    Disconnected,
    Connected(String),
    Error(String),
}

/// A single-chunk frame: sixty rows of pixels with the joint command.
#[derive(Clone)]
pub struct FrameData {
    pub joint: JointConfig,
    pub pixels: Vec<u8>,
}

impl Default for FrameData {
    /// A black chunk with the command that powers the servos down.
    fn default() -> (frame: Self)
        ensures
            frame.joint.enable == 0,
            frame.joint.angles@ == Seq::new(6, |i: int| 0u32),
            frame.pixels@ == Seq::new(43200, |i: int| 0u8),
    {
        let mut pixels: Vec<u8> = Vec::new();
        let mut i: usize = 0;
        while i < 43200
            invariant
                0 <= i <= 43200,
                pixels@ == Seq::new(i as nat, |k: int| 0u8),
            decreases 43200 - i,
        {
            pixels.push(0u8);
            i += 1;
            assert(pixels@ =~= Seq::new(i as nat, |k: int| 0u8));
        }
        FrameData { joint: JointConfig::default(), pixels }
    }
}

impl FrameData {
    /// The frame as it is written: the command record, then the pixels.
    pub fn to_bytes(&self) -> (bytes: Vec<u8>)
        ensures
            bytes@ == command_record(self.joint.enable, self.joint.angles@) + self.pixels@,
    {
        let head = self.joint.to_bytes();
        let mut bytes: Vec<u8> = Vec::with_capacity(FRAME_SIZE);
        let mut i: usize = 0;
        while i < 32
            invariant
                0 <= i <= 32,
                bytes@ == head@.subrange(0, i as int),
            decreases 32 - i,
        {
            bytes.push(head[i]);
            i += 1;
            assert(bytes@ =~= head@.subrange(0, i as int));
        }
        assert(head@.subrange(0, 32) =~= head@);
        let mut k: usize = 0;
        while k < self.pixels.len()
            invariant
                0 <= k <= self.pixels@.len(),
                bytes@ == head@ + self.pixels@.subrange(0, k as int),
            decreases self.pixels@.len() - k,
        {
            bytes.push(self.pixels[k]);
            k += 1;
            assert(bytes@ =~= head@ + self.pixels@.subrange(0, k as int));
        }
        assert(self.pixels@.subrange(0, self.pixels@.len() as int) =~= self.pixels@);
        bytes
    }
}

/// What the console asks of the thread that owns the serial device.
pub enum DeviceCmd {
    /// Write this single-chunk frame.
    SendFrame(FrameData),
    /// Close the connection.
    Disconnect,
}

/// The heartbeat packet that switches the device on: the size of a tail
/// packet, a one in its first byte.
pub fn enable_packet() -> (packet: [u8; 224])
    ensures
        packet@ == Seq::new(224, |i: int| 0u8).update(0, 1u8),
{
    let mut packet = [0u8; 224];
    packet[0] = 1;
    assert(packet@ =~= Seq::new(224, |i: int| 0u8).update(0, 1u8));
    packet
}

/// Vendor and product id of a USB device.
#[derive(Clone, Copy, Debug, PartialEq, Eq, Structural)]
pub struct UsbId {
    pub vendor: u16,
    pub product: u16,
}

/// Why no robot was found.
#[derive(Clone, Copy, Debug, PartialEq, Eq, Structural)]
pub enum FindError {
    /// None of the devices is the robot.
    NoDevice,
    /// The descriptor of the device at this position could not be read, and
    /// no device before it is the robot.
    Descriptor(usize),
}

/// Whether the device at position `i` is the robot.
pub open spec fn is_robot(devices: Seq<Option<UsbId>>, i: int) -> bool {
    devices[i] == Some(UsbId { vendor: DEVICE_VID, product: DEVICE_PID })
}

/// Whether the search passes the device at position `i`: its descriptor was
/// read and it is not the robot.
pub open spec fn passed_over(devices: Seq<Option<UsbId>>, i: int) -> bool {
    devices[i] is Some && !is_robot(devices, i)
}

/// Finds the robot among the machine's USB devices, given in the order in
/// which the bus lists them, each with its ids or with nothing where its
/// descriptor could not be read. The search goes from the front and ends at
/// the first device that is the robot, or whose descriptor is missing.
pub fn find_device(devices: &[Option<UsbId>]) -> (res: Result<usize, FindError>)
    ensures
        match res {
            Ok(i) => {
                &&& i < devices@.len()
                &&& is_robot(devices@, i as int)
                &&& forall|k: int| 0 <= k < i ==> #[trigger] passed_over(devices@, k)
            },
            Err(FindError::Descriptor(i)) => {
                &&& i < devices@.len()
                &&& devices@[i as int] is None
                &&& forall|k: int| 0 <= k < i ==> #[trigger] passed_over(devices@, k)
            },
            Err(FindError::NoDevice) => forall|k: int|
                0 <= k < devices@.len() ==> #[trigger] passed_over(devices@, k),
        },
{
    let mut i: usize = 0;
    while i < devices.len()
        invariant
            0 <= i <= devices@.len(),
            forall|k: int| 0 <= k < i ==> #[trigger] passed_over(devices@, k),
        decreases devices@.len() - i,
    {
        match devices[i] {
            None => {
                return Err(FindError::Descriptor(i));
            },
            Some(id) => {
                if id.vendor == DEVICE_VID && id.product == DEVICE_PID {
                    return Ok(i);
                }
            },
        }
        i += 1;
    }
    Err(FindError::NoDevice)
}

/// What the console knows of the serial device: whether its port is open,
/// and the state to show.
pub struct CdcDevice {
    open: bool,
    state: DeviceState,
    ping_pong_index: u8,
}

/// The message of a failed connection attempt.
pub open spec fn connect_failure_text(reason: Seq<char>) -> Seq<char> {
    "连接失败: "@ + reason
}

impl CdcDevice {
    /// Whether the port is open.
    pub closed spec fn spec_connected(&self) -> bool {
        self.open
    }

    /// The state to show.
    pub closed spec fn spec_state(&self) -> DeviceState {
        self.state
    }

    /// Which of the device's two frame buffers the latest frame went to.
    pub closed spec fn spec_ping_pong(&self) -> u8 {
        self.ping_pong_index
    }

    /// A device that is not connected.
    pub fn new() -> (device: Self)
        ensures
            !device.spec_connected(),
            device.spec_state() is Disconnected,
            device.spec_ping_pong() == 0,
    {
        CdcDevice { open: false, state: DeviceState::Disconnected, ping_pong_index: 0 }
    }

    /// The state to show.
    pub fn state(&self) -> (state: &DeviceState)
        ensures
            *state == self.spec_state(),
    {
        &self.state
    }

    /// Records how the attempt to open the port `port_name` went: `opened`
    /// is `Ok` where the port stands open, and the transport's complaint
    /// where it does not. After a success the device is connected to that
    /// port; after a failure its state, and the error handed back, hold the
    /// complaint.
    pub fn connect(&mut self, port_name: &str, opened: Result<(), String>) -> (res: Result<
        (),
        String,
    >)
        ensures
            match opened {
                Ok(()) => {
                    &&& res is Ok
                    &&& final(self).spec_connected()
                    &&& final(self).spec_ping_pong() == 0
                    &&& final(self).spec_state() matches DeviceState::Connected(name)
                    &&& name@ == port_name@
                },
                Err(reason) => {
                    &&& res matches Err(text)
                    &&& text@ == connect_failure_text(reason@)
                    &&& final(self).spec_connected() == old(self).spec_connected()
                    &&& final(self).spec_ping_pong() == old(self).spec_ping_pong()
                    &&& final(self).spec_state() matches DeviceState::Error(shown)
                    &&& shown@ == connect_failure_text(reason@)
                },
            },
    {
        match opened {
            Ok(()) => {
                self.open = true;
                self.ping_pong_index = 0;
                self.state = DeviceState::Connected(String::from_str(port_name));
                Ok(())
            },
            Err(reason) => {
                let mut text = String::from_str("连接失败: ");
                text.append(reason.as_str());
                self.state = DeviceState::Error(text.clone());
                Err(text)
            },
        }
    }

    /// Closes the connection.
    pub fn disconnect(&mut self)
        ensures
            !final(self).spec_connected(),
            final(self).spec_state() is Disconnected,
            final(self).spec_ping_pong() == old(self).spec_ping_pong(),
    {
        self.open = false;
        self.state = DeviceState::Disconnected;
    }

    /// Whether the port is open.
    pub fn is_connected(&self) -> (connected: bool)
        ensures
            connected == self.spec_connected(),
    {
        self.open
    }

    /// The bytes to write for a single-chunk frame; nothing where the device
    /// is not connected.
    pub fn send_frame(&self, frame: &FrameData) -> (bytes: Option<Vec<u8>>)
        ensures
            match bytes {
                Some(data) => self.spec_connected() && data@ == command_record(
                    frame.joint.enable,
                    frame.joint.angles@,
                ) + frame.pixels@,
                None => !self.spec_connected(),
            },
    {
        if self.open {
            Some(frame.to_bytes())
        } else {
            None
        }
    }

    /// Takes a command from the console: for a frame, hands out the bytes to
    /// write, or nothing where the device is not connected; for a
    /// disconnect, closes the connection.
    pub fn handle_command(&mut self, command: &DeviceCmd) -> (bytes: Option<Vec<u8>>)
        ensures
            final(self).spec_ping_pong() == old(self).spec_ping_pong(),
            match *command {
                DeviceCmd::SendFrame(frame) => {
                    &&& final(self).spec_connected() == old(self).spec_connected()
                    &&& final(self).spec_state() == old(self).spec_state()
                    &&& match bytes {
                        Some(data) => old(self).spec_connected() && data@ == command_record(
                            frame.joint.enable,
                            frame.joint.angles@,
                        ) + frame.pixels@,
                        None => !old(self).spec_connected(),
                    }
                },
                DeviceCmd::Disconnect => {
                    &&& bytes is None
                    &&& !final(self).spec_connected()
                    &&& final(self).spec_state() is Disconnected
                },
            },
    {
        match command {
            DeviceCmd::SendFrame(frame) => self.send_frame(frame),
            DeviceCmd::Disconnect => {
                self.disconnect();
                None
            },
        }
    }

    /// Starts the exchange of a full frame in the regular protocol, and
    /// switches to the device's other frame buffer; nothing where the device
    /// is not connected.
    pub fn sync_frame(&mut self, full_frame: Vec<u8>, config: &JointConfig) -> (exchange: Option<
        FrameExchange,
    >)
        requires
            full_frame@.len() == 172800,
        ensures
            final(self).spec_connected() == old(self).spec_connected(),
            final(self).spec_state() == old(self).spec_state(),
            match exchange {
                Some(fx) => {
                    &&& old(self).spec_connected()
                    &&& final(self).spec_ping_pong() == if old(self).spec_ping_pong() == 0 {
                        1u8
                    } else {
                        0u8
                    }
                    &&& fx.wf()
                    &&& fx.spec_geometry().spec_rounds() == 4
                    &&& fx.spec_geometry().spec_round_len() == 43200
                    &&& fx.spec_geometry().spec_packet_size() == 512
                    &&& fx.spec_geometry().spec_tail_pixel_bytes() == 192
                    &&& fx.spec_order() == FeedbackOrder::AfterTail
                    &&& fx.spec_pixels() == full_frame@
                    &&& fx.spec_command() == command_record(config.enable, config.angles@)
                    &&& fx.spec_round() == 0
                    &&& fx.spec_pos() == 0
                    &&& !fx.spec_fed()
                    &&& fx.spec_error() is None
                    &&& fx.spec_feedback() == Seq::new(6, |i: int| 0u32)
                    &&& fx.spec_received().len() == 0
                },
                None => !old(self).spec_connected() && final(self).spec_ping_pong() == old(
                    self,
                ).spec_ping_pong(),
            },
    {
        if !self.open {
            return None;
        }
        self.ping_pong_index = if self.ping_pong_index == 0 {
            1
        } else {
            0
        };
        Some(
            FrameExchange::new(
                Geometry::standard(),
                FeedbackOrder::AfterTail,
                full_frame,
                config.to_bytes(),
            ),
        )
    }
}

impl Default for CdcDevice {
    /// A device that is not connected.
    fn default() -> (device: Self)
        ensures
            !device.spec_connected(),
            device.spec_state() is Disconnected,
            device.spec_ping_pong() == 0,
    {
        CdcDevice::new()
    }
}

} // verus!
