//! The master context: the device table and the process image, owned in one
//! place and never resized.
//!
//! Storage is laid out once, when the context is made. Devices are addressed
//! from 1, as on the bus; slot 0 of the table stays unused. A device is
//! referred to by its address, which stays good for as long as the context
//! lives. The process image is split in two: the outputs segment in front,
//! written by the control side and sent to the devices, and the inputs
//! segment behind it, received from the devices and read by the control side.
//! The segments never overlap, so one side writes each byte and the other
//! reads it.

use vstd::prelude::*;

use crate::bus::BusState;
use crate::error::ConfigError;
use crate::image::{
    check_width, inputs_at, outputs_at, InputsRecord, LayoutMismatch, OutputsRecord, INPUTS_SIZE,
    OUTPUTS_SIZE,
};

verus! {

/// Size of the process image in bytes.
pub const IMAGE_SIZE: usize = 4096;

/// Most devices that one process image can serve.
pub const MAX_DEVICES: usize = 341;

/// Vendor and product of a device, as read from it.
#[derive(Clone, Copy, Debug, PartialEq, Eq, Structural)]
pub struct DeviceIdentity {
    pub vendor: u32,
    pub product: u32,
}

/// Vendor id of the AKD drive.
pub const DRIVE_VENDOR: u32 = 0x6a;

/// Product id of the AKD drive.
pub const DRIVE_PRODUCT: u32 = 0x414b44;

/// Whether a device has a configuration hook, and whether it has run.
#[derive(Clone, Copy, Debug, PartialEq, Eq, Structural)]
pub enum HookState {
    /// No hook was registered.
    Absent,
    /// A hook was registered and has not run.
    Pending,
    /// The hook has run.
    Invoked,
}

/// A run of bytes of the process image.
#[derive(Clone, Copy, Debug, PartialEq, Eq, Structural)]
pub struct ByteRange {
    pub start: usize,
    pub length: usize,
}

impl ByteRange {
    /// The offset just behind the range.
    pub open spec fn spec_end(self) -> int {
        self.start + self.length
    }

    /// Whether the two ranges share no byte.
    pub open spec fn disjoint_from(self, other: ByteRange) -> bool {
        self.spec_end() <= other.start || other.spec_end() <= self.start
    }

    /// Number of bytes in the range.
    pub fn len(&self) -> (r: usize)
        ensures
            r == self.length,
    {
        self.length
    }
}

/// The widths of the regions that the transport mapped for one device.
#[derive(Clone, Copy, Debug, PartialEq, Eq, Structural)]
pub struct RegionWidths {
    pub outputs: usize,
    pub inputs: usize,
}

/// One entry of the device table.
#[derive(Clone, Copy, Debug, PartialEq, Eq, Structural)]
pub struct DeviceDescriptor {
    pub identity: DeviceIdentity,
    pub state: BusState,
    pub hook: HookState,
    pub outputs: ByteRange,
    pub inputs: ByteRange,
}

impl DeviceDescriptor {
    /// An entry that stands for no device.
    pub open spec fn spec_vacant() -> DeviceDescriptor {
        DeviceDescriptor::spec_discovered(DeviceIdentity { vendor: 0, product: 0 })
    }

    /// The entry of a device that was just found: in `Init`, without a hook,
    /// with nothing mapped.
    pub open spec fn spec_discovered(identity: DeviceIdentity) -> DeviceDescriptor {
        DeviceDescriptor {
            identity,
            state: BusState::Init,
            hook: HookState::Absent,
            outputs: ByteRange { start: 0, length: 0 },
            inputs: ByteRange { start: 0, length: 0 },
        }
    }

    /// The entry of a device that was just found.
    pub fn discovered(identity: DeviceIdentity) -> (r: DeviceDescriptor)
        ensures
            r == DeviceDescriptor::spec_discovered(identity),
    {
        DeviceDescriptor {
            identity,
            state: BusState::Init,
            hook: HookState::Absent,
            outputs: ByteRange { start: 0, length: 0 },
            inputs: ByteRange { start: 0, length: 0 },
        }
    }

    /// Vendor and product of the device.
    pub fn identity(&self) -> (r: DeviceIdentity)
        ensures
            r == self.identity,
    {
        self.identity
    }

    /// The bytes of the process image that hold the device's inputs.
    pub fn input_range(&self) -> (r: ByteRange)
        ensures
            r == self.inputs,
    {
        self.inputs
    }

    /// The bytes of the process image that hold the device's outputs.
    pub fn output_range(&self) -> (r: ByteRange)
        ensures
            r == self.outputs,
    {
        self.outputs
    }
}

/// Checks that a device is the drive that this controller is written for.
pub fn check_identity(identity: DeviceIdentity) -> (r: Result<(), ConfigError>)
    ensures
        identity.vendor == DRIVE_VENDOR && identity.product == DRIVE_PRODUCT ==> r is Ok,
        !(identity.vendor == DRIVE_VENDOR && identity.product == DRIVE_PRODUCT) ==> r == Err::<
            (),
            ConfigError,
        >(ConfigError::UnexpectedDevice { vendor: identity.vendor, product: identity.product }),
{
    if identity.vendor == DRIVE_VENDOR && identity.product == DRIVE_PRODUCT {
        Ok(())
    } else {
        Err(ConfigError::UnexpectedDevice { vendor: identity.vendor, product: identity.product })
    }
}

/// What a master context holds, as mathematics.
pub struct ContextModel {
    /// Name of the network interface.
    pub interface: Seq<char>,
    /// The device table. Slot 0 is unused; device `i` stands in slot `i`.
    pub table: Seq<DeviceDescriptor>,
    /// Number of devices found.
    pub count: nat,
    /// The process image.
    pub image: Seq<u8>,
    /// Whether the mapping is final.
    pub mapped: bool,
}

impl ContextModel {
    /// Number of devices that the table has room for.
    pub open spec fn capacity(self) -> int {
        self.table.len() - 1
    }

    /// Whether `device` is the address of a device that was found.
    pub open spec fn has_device(self, device: int) -> bool {
        1 <= device <= self.count
    }

    /// Length of the outputs segment, which starts the image.
    pub open spec fn outputs_len(self) -> int {
        self.count * OUTPUTS_SIZE
    }

    /// Length of the inputs segment, which follows the outputs segment.
    pub open spec fn inputs_len(self) -> int {
        self.count * INPUTS_SIZE
    }

    /// The range that the mapping gives to the outputs of `device`.
    pub open spec fn outputs_range(self, device: int) -> ByteRange {
        ByteRange { start: ((device - 1) * OUTPUTS_SIZE) as usize, length: OUTPUTS_SIZE }
    }

    /// The range that the mapping gives to the inputs of `device`.
    pub open spec fn inputs_range(self, device: int) -> ByteRange {
        ByteRange {
            start: (self.outputs_len() + (device - 1) * INPUTS_SIZE) as usize,
            length: INPUTS_SIZE,
        }
    }

    /// The invariant of a context.
    ///
    /// The table has room for at least one device and for no more than the
    /// image can serve, and holds no more devices than it has room for. The
    /// image has its full size. Once the mapping is final, each device has its
    /// two ranges where the layout puts them, each as wide as its record, and
    /// no hook is left waiting.
    pub open spec fn wf(self) -> bool {
        &&& 2 <= self.table.len() <= MAX_DEVICES + 1
        &&& self.count <= self.capacity()
        &&& self.image.len() == IMAGE_SIZE
        &&& self.mapped ==> forall|device: int|
            self.has_device(device) ==> {
                &&& (#[trigger] self.table[device]).outputs == self.outputs_range(device)
                &&& self.table[device].inputs == self.inputs_range(device)
                &&& self.table[device].hook != HookState::Pending
            }
    }

    /// The table after a probe found the devices `found`: they stand in slots
    /// 1 and up, in the order found, and every other slot is vacant.
    pub open spec fn table_after_discovery(self, found: Seq<DeviceIdentity>) -> Seq<
        DeviceDescriptor,
    > {
        Seq::new(
            self.table.len(),
            |slot: int|
                if 1 <= slot <= found.len() {
                    DeviceDescriptor::spec_discovered(found[slot - 1])
                } else {
                    DeviceDescriptor::spec_vacant()
                },
        )
    }

    /// What a discovery answers.
    pub open spec fn discover_result(self, found: Seq<DeviceIdentity>) -> Result<
        usize,
        ConfigError,
    > {
        if self.mapped {
            Err(ConfigError::AlreadyMapped)
        } else if found.len() > self.capacity() {
            Err(
                ConfigError::TableFull {
                    found: found.len() as usize,
                    capacity: self.capacity() as usize,
                },
            )
        } else {
            Ok(found.len() as usize)
        }
    }

    /// The context after a discovery.
    pub open spec fn after_discovery(self, found: Seq<DeviceIdentity>) -> ContextModel {
        if self.discover_result(found) is Ok {
            ContextModel {
                table: self.table_after_discovery(found),
                count: found.len(),
                ..self
            }
        } else {
            self
        }
    }

    /// What stands in the way of mapping `device` with the regions `widths`:
    /// a hook that was registered and has not run, or a region that is not as
    /// wide as its record, the outputs looked at first.
    pub open spec fn device_fault(self, widths: RegionWidths, device: int) -> Option<ConfigError> {
        if self.table[device].hook == HookState::Pending {
            Some(ConfigError::HookPending { device: device as usize })
        } else if widths.outputs != OUTPUTS_SIZE {
            Some(
                ConfigError::Layout {
                    device: device as usize,
                    mismatch: LayoutMismatch { expected: OUTPUTS_SIZE, actual: widths.outputs },
                },
            )
        } else if widths.inputs != INPUTS_SIZE {
            Some(
                ConfigError::Layout {
                    device: device as usize,
                    mismatch: LayoutMismatch { expected: INPUTS_SIZE, actual: widths.inputs },
                },
            )
        } else {
            None
        }
    }

    /// The fault of the first device among devices 1 to `upto` that has one.
    pub open spec fn first_fault(self, widths: Seq<RegionWidths>, upto: nat) -> Option<ConfigError>
        decreases upto,
    {
        if upto == 0 {
            None
        } else {
            match self.first_fault(widths, (upto - 1) as nat) {
                Some(fault) => Some(fault),
                None => self.device_fault(widths[upto - 1], upto as int),
            }
        }
    }

    /// What stands in the way of making the mapping final, if anything.
    pub open spec fn mapping_fault(self, widths: Seq<RegionWidths>) -> Option<ConfigError> {
        if self.mapped {
            Some(ConfigError::AlreadyMapped)
        } else if widths.len() != self.count {
            Some(
                ConfigError::DeviceCountMismatch {
                    expected: self.count as usize,
                    actual: widths.len() as usize,
                },
            )
        } else {
            self.first_fault(widths, self.count)
        }
    }

    /// The table with the ranges of the final layout in the slots of the
    /// devices found.
    pub open spec fn table_after_mapping(self) -> Seq<DeviceDescriptor> {
        Seq::new(
            self.table.len(),
            |slot: int|
                if self.has_device(slot) {
                    DeviceDescriptor {
                        outputs: self.outputs_range(slot),
                        inputs: self.inputs_range(slot),
                        ..self.table[slot]
                    }
                } else {
                    self.table[slot]
                },
        )
    }

    /// The context after the mapping was made final, or as it was where
    /// something stood in the way.
    pub open spec fn after_mapping(self, widths: Seq<RegionWidths>) -> ContextModel {
        if self.mapping_fault(widths) is None {
            ContextModel { table: self.table_after_mapping(), mapped: true, ..self }
        } else {
            self
        }
    }

    /// The table with the entry of slot `device` replaced.
    pub open spec fn table_with(self, device: int, entry: DeviceDescriptor) -> Seq<
        DeviceDescriptor,
    > {
        self.table.update(device, entry)
    }

    /// The context after `state` was recorded for `device`, or as it was where
    /// no device has that address.
    pub open spec fn with_state(self, device: int, state: BusState) -> ContextModel {
        if self.has_device(device) {
            ContextModel {
                table: self.table_with(device, DeviceDescriptor { state, ..self.table[device] }),
                ..self
            }
        } else {
            self
        }
    }

    /// What stands in the way of registering a hook for `device`, if
    /// anything: a final mapping, an address without a device, or a hook that
    /// has run, looked at in this order.
    pub open spec fn registration_fault(self, device: int) -> Option<ConfigError> {
        if self.mapped {
            Some(ConfigError::AlreadyMapped)
        } else if !self.has_device(device) {
            Some(ConfigError::UnknownDevice { device: device as usize })
        } else if self.table[device].hook == HookState::Invoked {
            Some(ConfigError::HookSpent { device: device as usize })
        } else {
            None
        }
    }

    /// The context with the hook of `device` in state `hook`.
    pub open spec fn with_hook(self, device: int, hook: HookState) -> ContextModel {
        ContextModel {
            table: self.table_with(device, DeviceDescriptor { hook, ..self.table[device] }),
            ..self
        }
    }

    /// The context after a hook was registered for `device`, or as it was
    /// where something stood in the way.
    pub open spec fn after_registration(self, device: int) -> ContextModel {
        if self.registration_fault(device) is None {
            self.with_hook(device, HookState::Pending)
        } else {
            self
        }
    }

    /// Whether the hook of `device` is due: it was registered and has not
    /// run.
    pub open spec fn hook_due(self, device: int) -> bool {
        self.has_device(device) && self.table[device].hook == HookState::Pending
    }

    /// The context after the hook of `device` was taken to be run, or as it
    /// was where no hook is due.
    pub open spec fn after_hook(self, device: int) -> ContextModel {
        if self.hook_due(device) {
            self.with_hook(device, HookState::Invoked)
        } else {
            self
        }
    }

    /// Whether the typed records of `device` can be read and written: the
    /// mapping is final and the device was found.
    pub open spec fn serves(self, device: int) -> bool {
        self.mapped && self.has_device(device)
    }

    /// The bytes of the image in a range.
    pub open spec fn bytes_of(self, range: ByteRange) -> Seq<u8> {
        self.image.subrange(range.start as int, range.spec_end())
    }

    /// The inputs record of `device`, where the context serves it.
    pub open spec fn inputs_of(self, device: int) -> Option<InputsRecord> {
        if self.serves(device) {
            Some(InputsRecord::spec_decode(self.bytes_of(self.inputs_range(device))))
        } else {
            None
        }
    }

    /// The outputs record of `device`, where the context serves it.
    pub open spec fn outputs_of(self, device: int) -> Option<OutputsRecord> {
        if self.serves(device) {
            Some(OutputsRecord::spec_decode(self.bytes_of(self.outputs_range(device))))
        } else {
            None
        }
    }

    /// The image with the bytes from `at` on replaced by `bytes`.
    pub open spec fn image_with(self, at: int, bytes: Seq<u8>) -> Seq<u8> {
        self.image.subrange(0, at) + bytes + self.image.subrange(
            at + bytes.len(),
            self.image.len() as int,
        )
    }

    /// The context after `record` was written to the outputs of `device`, or
    /// as it was where the context does not serve the device.
    pub open spec fn with_outputs(self, device: int, record: OutputsRecord) -> ContextModel {
        if self.serves(device) {
            ContextModel {
                image: self.image_with(
                    self.outputs_range(device).start as int,
                    record.spec_encode(),
                ),
                ..self
            }
        } else {
            self
        }
    }

    /// Whether `received` can be taken for the inputs segment: the mapping is
    /// final and the length is that of the segment.
    pub open spec fn accepts_inputs(self, received: Seq<u8>) -> bool {
        self.mapped && received.len() == self.inputs_len()
    }

    /// The context after the inputs segment was received, or as it was where
    /// `received` cannot be taken.
    pub open spec fn with_inputs(self, received: Seq<u8>) -> ContextModel {
        if self.accepts_inputs(received) {
            ContextModel { image: self.image_with(self.outputs_len(), received), ..self }
        } else {
            self
        }
    }
}

/// What stands in the way of making a context, if anything: an interface
/// without a name, room for no device, or room for more devices than the image
/// can serve, looked at in this order.
pub open spec fn creation_fault(interface: Seq<char>, device_capacity: usize) -> Option<
    ConfigError,
> {
    if interface.len() == 0 {
        Some(ConfigError::NoInterface)
    } else if device_capacity == 0 {
        Some(ConfigError::NoCapacity)
    } else if device_capacity > MAX_DEVICES {
        Some(ConfigError::CapacityTooLarge { capacity: device_capacity, most: MAX_DEVICES })
    } else {
        None
    }
}

/// The master context.
pub struct MasterContext {
    interface: String,
    devices: Vec<DeviceDescriptor>,
    count: usize,
    image: Vec<u8>,
    mapped: bool,
}

impl View for MasterContext {
    type V = ContextModel;

    closed spec fn view(&self) -> ContextModel {
        ContextModel {
            interface: self.interface@,
            table: self.devices@,
            count: self.count as nat,
            image: self.image@,
            mapped: self.mapped,
        }
    }
}

impl MasterContext {
    /// The invariant of a context: that of what it holds.
    pub open spec fn wf(&self) -> bool {
        self@.wf()
    }

    /// Makes a context for the interface `interface` with room for
    /// `device_capacity` devices. All storage is laid out here: the table with
    /// every slot vacant, the image with every byte zero.
    ///
    /// An interface without a name is refused, and so is room for no device or
    /// for more devices than the image can serve.
    pub fn create(interface: &str, device_capacity: usize) -> (r: Result<
        MasterContext,
        ConfigError,
    >)
        ensures
            r is Ok <==> creation_fault(interface@, device_capacity) is None,
            r matches Err(fault) ==> creation_fault(interface@, device_capacity) == Some(fault),
            r matches Ok(context) ==> {
                &&& context.wf()
                &&& context@.interface == interface@
                &&& context@.capacity() == device_capacity
                &&& context@.count == 0
                &&& !context@.mapped
                &&& context@.table == Seq::new(
                    (device_capacity + 1) as nat,
                    |slot: int| DeviceDescriptor::spec_vacant(),
                )
                &&& context@.image == Seq::new(IMAGE_SIZE as nat, |at: int| 0u8)
            },
    {
        if interface.is_empty() {
            return Err(ConfigError::NoInterface);
        }
        if device_capacity == 0 {
            return Err(ConfigError::NoCapacity);
        }
        if device_capacity > MAX_DEVICES {
            return Err(
                ConfigError::CapacityTooLarge { capacity: device_capacity, most: MAX_DEVICES },
            );
        }
        let vacant = DeviceDescriptor::discovered(DeviceIdentity { vendor: 0, product: 0 });
        let mut devices: Vec<DeviceDescriptor> = Vec::with_capacity(device_capacity + 1);
        let mut slot: usize = 0;
        while slot < device_capacity + 1
            invariant
                slot <= device_capacity + 1,
                device_capacity <= MAX_DEVICES,
                vacant == DeviceDescriptor::spec_vacant(),
                devices@.len() == slot,
                forall|k: int| 0 <= k < slot ==> devices@[k] == DeviceDescriptor::spec_vacant(),
            decreases device_capacity + 1 - slot,
        {
            devices.push(vacant);
            slot = slot + 1;
        }
        let mut image: Vec<u8> = Vec::with_capacity(IMAGE_SIZE);
        let mut at: usize = 0;
        while at < IMAGE_SIZE
            invariant
                at <= IMAGE_SIZE,
                image@.len() == at,
                forall|k: int| 0 <= k < at ==> image@[k] == 0u8,
            decreases IMAGE_SIZE - at,
        {
            image.push(0u8);
            at = at + 1;
        }
        let context = MasterContext {
            interface: interface.to_owned(),
            devices,
            count: 0,
            image,
            mapped: false,
        };
        assert(context@.table =~= Seq::new(
            (device_capacity + 1) as nat,
            |slot: int| DeviceDescriptor::spec_vacant(),
        ));
        assert(context@.image =~= Seq::new(IMAGE_SIZE as nat, |at: int| 0u8));
        Ok(context)
    }

    /// Name of the network interface.
    pub fn interface(&self) -> (r: &str)
        ensures
            r@ == self@.interface,
    {
        self.interface.as_str()
    }

    /// Number of devices that the table has room for.
    pub fn capacity(&self) -> (r: usize)
        requires
            self.wf(),
        ensures
            r == self@.capacity(),
    {
        self.devices.len() - 1
    }

    /// Number of devices found.
    pub fn device_count(&self) -> (r: usize)
        ensures
            r == self@.count,
    {
        self.count
    }

    /// Whether the mapping is final.
    pub fn is_mapped(&self) -> (r: bool)
        ensures
            r == self@.mapped,
    {
        self.mapped
    }

    /// The process image.
    pub fn image(&self) -> (r: &[u8])
        ensures
            r@ == self@.image,
    {
        self.image.as_slice()
    }

    /// Length of the outputs segment, which starts the image.
    pub fn outputs_len(&self) -> (r: usize)
        requires
            self.wf(),
        ensures
            r == self@.outputs_len(),
    {
        self.count * OUTPUTS_SIZE
    }

    /// Length of the inputs segment, which follows the outputs segment.
    pub fn inputs_len(&self) -> (r: usize)
        requires
            self.wf(),
        ensures
            r == self@.inputs_len(),
    {
        self.count * INPUTS_SIZE
    }

    /// Fills the table with the devices that a probe of the network found, in
    /// the order found, and answers their number. Zero devices is an answer,
    /// not an error: the caller decides what to make of it.
    ///
    /// More devices than the table has room for are refused, and so is any
    /// discovery after the mapping was made final; the context then stays as
    /// it was.
    pub fn discover(&mut self, found: &[DeviceIdentity]) -> (r: Result<usize, ConfigError>)
        requires
            old(self).wf(),
        ensures
            final(self).wf(),
            r == old(self)@.discover_result(found@),
            final(self)@ == old(self)@.after_discovery(found@),
    {
        if self.mapped {
            return Err(ConfigError::AlreadyMapped);
        }
        let capacity: usize = self.devices.len() - 1;
        if found.len() > capacity {
            return Err(ConfigError::TableFull { found: found.len(), capacity });
        }
        let vacant = DeviceDescriptor::discovered(DeviceIdentity { vendor: 0, product: 0 });
        let mut slot: usize = 0;
        while slot < self.devices.len()
            invariant
                slot <= self.devices.len(),
                self.devices@.len() == old(self).devices@.len(),
                found@.len() <= self.devices@.len() - 1,
                vacant == DeviceDescriptor::spec_vacant(),
                self.interface == old(self).interface,
                self.image == old(self).image,
                self.mapped == old(self).mapped,
                forall|k: int|
                    0 <= k < slot ==> self.devices@[k] == old(self)@.table_after_discovery(
                        found@,
                    )[k],
            decreases self.devices.len() - slot,
        {
            let entry = if 1 <= slot && slot <= found.len() {
                DeviceDescriptor::discovered(found[slot - 1])
            } else {
                vacant
            };
            self.devices.set(slot, entry);
            slot = slot + 1;
        }
        self.count = found.len();
        assert(self.devices@ =~= old(self)@.table_after_discovery(found@));
        Ok(found.len())
    }

    /// The device at address `device`, or nothing where no device was found
    /// at that address. Addresses start at 1.
    pub fn device_at(&self, device: usize) -> (r: Option<&DeviceDescriptor>)
        requires
            self.wf(),
        ensures
            self@.has_device(device as int) ==> r == Some(&self@.table[device as int]),
            !self@.has_device(device as int) ==> r is None,
    {
        if 1 <= device && device <= self.count {
            Some(&self.devices[device])
        } else {
            None
        }
    }

    /// Records the network state of a device. Answers whether a device has
    /// the address; where none has, nothing changes.
    pub fn set_device_state(&mut self, device: usize, state: BusState) -> (r: bool)
        requires
            old(self).wf(),
        ensures
            final(self).wf(),
            r == old(self)@.has_device(device as int),
            final(self)@ == old(self)@.with_state(device as int, state),
    {
        if 1 <= device && device <= self.count {
            let entry = DeviceDescriptor { state, ..self.devices[device] };
            self.devices.set(device, entry);
            true
        } else {
            false
        }
    }

    /// Registers the configuration hook of a device: what is to be written to
    /// the device once, before the mapping is made final.
    ///
    /// Registering again while the hook waits changes nothing. A hook that has
    /// run cannot be registered again.
    pub fn register_pre_operational_hook(&mut self, device: usize) -> (r: Result<(), ConfigError>)
        requires
            old(self).wf(),
        ensures
            final(self).wf(),
            r is Ok <==> old(self)@.registration_fault(device as int) is None,
            r matches Err(fault) ==> old(self)@.registration_fault(device as int) == Some(fault),
            final(self)@ == old(self)@.after_registration(device as int),
    {
        if self.mapped {
            return Err(ConfigError::AlreadyMapped);
        }
        if !(1 <= device && device <= self.count) {
            return Err(ConfigError::UnknownDevice { device });
        }
        let entry: DeviceDescriptor = self.devices[device];
        match entry.hook {
            HookState::Invoked => Err(ConfigError::HookSpent { device }),
            _ => {
                self.devices.set(device, DeviceDescriptor { hook: HookState::Pending, ..entry });
                Ok(())
            },
        }
    }

    /// Takes the hook of a device to be run. Answers `true` where a hook is
    /// due, and marks it as run, so that no second call answers `true` for
    /// it; answers `false`, and changes nothing, otherwise.
    pub fn take_hook(&mut self, device: usize) -> (r: bool)
        requires
            old(self).wf(),
        ensures
            final(self).wf(),
            r == old(self)@.hook_due(device as int),
            final(self)@ == old(self)@.after_hook(device as int),
            !final(self)@.hook_due(device as int),
    {
        if !(1 <= device && device <= self.count) {
            return false;
        }
        let entry: DeviceDescriptor = self.devices[device];
        match entry.hook {
            HookState::Pending => {
                self.devices.set(device, DeviceDescriptor { hook: HookState::Invoked, ..entry });
                true
            },
            _ => false,
        }
    }

    /// Makes the mapping final. `widths` holds, for each device in turn, the
    /// widths of the regions that the transport mapped for it.
    ///
    /// Every region must be exactly as wide as its typed record, and every
    /// hook that was registered must have run. Then each device is given its
    /// ranges of the image, outputs in front and inputs behind, and the answer
    /// is the number of bytes of the image in use. Else the first device at
    /// fault decides the error, and the context stays as it was.
    pub fn finalize_mapping(&mut self, widths: &[RegionWidths]) -> (r: Result<usize, ConfigError>)
        requires
            old(self).wf(),
        ensures
            final(self).wf(),
            r is Ok <==> old(self)@.mapping_fault(widths@) is None,
            r matches Err(fault) ==> old(self)@.mapping_fault(widths@) == Some(fault),
            r matches Ok(used) ==> used == old(self)@.outputs_len() + old(self)@.inputs_len(),
            final(self)@ == old(self)@.after_mapping(widths@),
    {
        if self.mapped {
            return Err(ConfigError::AlreadyMapped);
        }
        if widths.len() != self.count {
            return Err(
                ConfigError::DeviceCountMismatch { expected: self.count, actual: widths.len() },
            );
        }
        let mut device: usize = 1;
        while device <= self.count
            invariant
                1 <= device <= self.count + 1,
                *self == *old(self),
                self.wf(),
                !self.mapped,
                widths@.len() == self.count,
                self@.first_fault(widths@, (device - 1) as nat) is None,
            decreases self.count + 1 - device,
        {
            let entry: DeviceDescriptor = self.devices[device];
            let given: RegionWidths = widths[device - 1];
            let pending: bool = match entry.hook {
                HookState::Pending => true,
                _ => false,
            };
            if pending {
                proof {
                    self@.lemma_fault_persists(widths@, device as nat, self.count as nat);
                }
                return Err(ConfigError::HookPending { device });
            }
            let fits = match check_width(OUTPUTS_SIZE, given.outputs) {
                Ok(()) => check_width(INPUTS_SIZE, given.inputs),
                Err(mismatch) => Err(mismatch),
            };
            match fits {
                Ok(()) => {},
                Err(mismatch) => {
                    proof {
                        self@.lemma_fault_persists(widths@, device as nat, self.count as nat);
                    }
                    return Err(ConfigError::Layout { device, mismatch });
                },
            }
            device = device + 1;
        }
        let outputs_len: usize = self.count * OUTPUTS_SIZE;
        let mut slot: usize = 1;
        while slot <= self.count
            invariant
                1 <= slot <= self.count + 1,
                self.count == old(self).count,
                self.count <= MAX_DEVICES,
                outputs_len == self.count * OUTPUTS_SIZE,
                self.interface == old(self).interface,
                self.image == old(self).image,
                self.mapped == old(self).mapped,
                self.devices@.len() == old(self).devices@.len(),
                self.count < self.devices@.len(),
                forall|k: int|
                    0 <= k < self.devices@.len() ==> self.devices@[k] == if 1 <= k < slot {
                        old(self)@.table_after_mapping()[k]
                    } else {
                        old(self).devices@[k]
                    },
            decreases self.count + 1 - slot,
        {
            let entry: DeviceDescriptor = self.devices[slot];
            let mapped_entry = DeviceDescriptor {
                outputs: ByteRange { start: (slot - 1) * OUTPUTS_SIZE, length: OUTPUTS_SIZE },
                inputs: ByteRange {
                    start: outputs_len + (slot - 1) * INPUTS_SIZE,
                    length: INPUTS_SIZE,
                },
                ..entry
            };
            self.devices.set(slot, mapped_entry);
            slot = slot + 1;
        }
        self.mapped = true;
        assert(self.devices@ =~= old(self)@.table_after_mapping());
        proof {
            old(self)@.lemma_no_fault_no_pending(widths@, old(self).count as nat);
        }
        Ok(self.count * OUTPUTS_SIZE + self.count * INPUTS_SIZE)
    }

    /// Reads the inputs record of a device from the image, or nothing where
    /// the mapping is not final or no device has the address.
    pub fn inputs_of(&self, device: usize) -> (r: Option<InputsRecord>)
        requires
            self.wf(),
        ensures
            r == self@.inputs_of(device as int),
    {
        if self.mapped && 1 <= device && device <= self.count {
            let at: usize = self.count * OUTPUTS_SIZE + (device - 1) * INPUTS_SIZE;
            Some(inputs_at(self.image.as_slice(), at))
        } else {
            None
        }
    }

    /// Reads the outputs record of a device from the image, or nothing where
    /// the mapping is not final or no device has the address.
    pub fn outputs_of(&self, device: usize) -> (r: Option<OutputsRecord>)
        requires
            self.wf(),
        ensures
            r == self@.outputs_of(device as int),
    {
        if self.mapped && 1 <= device && device <= self.count {
            let at: usize = (device - 1) * OUTPUTS_SIZE;
            Some(outputs_at(self.image.as_slice(), at))
        } else {
            None
        }
    }

    fn overwrite(&mut self, at: usize, bytes: &[u8])
        requires
            at + bytes.len() <= old(self).image@.len(),
        ensures
            final(self).image@ == old(self)@.image_with(at as int, bytes@),
            final(self).interface == old(self).interface,
            final(self).devices == old(self).devices,
            final(self).count == old(self).count,
            final(self).mapped == old(self).mapped,
    {
        let mut k: usize = 0;
        while k < bytes.len()
            invariant
                k <= bytes.len(),
                at + bytes.len() <= self.image.len(),
                self.image@.len() == old(self).image@.len(),
                self.interface == old(self).interface,
                self.devices == old(self).devices,
                self.count == old(self).count,
                self.mapped == old(self).mapped,
                forall|j: int|
                    0 <= j < self.image@.len() ==> self.image@[j] == if at <= j < at + k {
                        bytes@[j - at]
                    } else {
                        old(self).image@[j]
                    },
            decreases bytes.len() - k,
        {
            self.image.set(at + k, bytes[k]);
            k = k + 1;
        }
        assert(self.image@ =~= old(self)@.image_with(at as int, bytes@));
    }

    /// Writes the outputs record of a device into the image. Only the six
    /// bytes of that device's output range change. Answers whether the
    /// context serves the device; where it does not, nothing changes.
    pub fn set_outputs(&mut self, device: usize, record: OutputsRecord) -> (r: bool)
        requires
            old(self).wf(),
        ensures
            final(self).wf(),
            r == old(self)@.serves(device as int),
            final(self)@ == old(self)@.with_outputs(device as int, record),
    {
        if self.mapped && 1 <= device && device <= self.count {
            let bytes: Vec<u8> = record.encode();
            self.overwrite((device - 1) * OUTPUTS_SIZE, bytes.as_slice());
            true
        } else {
            false
        }
    }

    /// Takes the bytes received from the devices for the inputs segment.
    /// Only the inputs segment changes. Answers whether the bytes were taken:
    /// the mapping must be final and the length that of the segment; where
    /// they were not, nothing changes.
    pub fn load_inputs(&mut self, received: &[u8]) -> (r: bool)
        requires
            old(self).wf(),
        ensures
            final(self).wf(),
            r == old(self)@.accepts_inputs(received@),
            final(self)@ == old(self)@.with_inputs(received@),
    {
        if self.mapped && received.len() == self.count * INPUTS_SIZE {
            self.overwrite(self.count * OUTPUTS_SIZE, received);
            true
        } else {
            false
        }
    }
}

impl ContextModel {
    /// A fault found among the first devices stays the fault when more
    /// devices are looked at.
    pub proof fn lemma_fault_persists(self, widths: Seq<RegionWidths>, upto: nat, more: nat)
        requires
            upto <= more,
            self.first_fault(widths, upto) is Some,
        ensures
            self.first_fault(widths, more) == self.first_fault(widths, upto),
        decreases more,
    {
        if upto < more {
            self.lemma_fault_persists(widths, upto, (more - 1) as nat);
        }
    }

    /// Where no device among the first `upto` is at fault, none of them has a
    /// hook waiting or a region of the wrong width.
    pub proof fn lemma_no_fault_no_pending(self, widths: Seq<RegionWidths>, upto: nat)
        requires
            self.first_fault(widths, upto) is None,
        ensures
            forall|device: int|
                1 <= device <= upto ==> self.device_fault(
                    #[trigger] widths[device - 1],
                    device,
                ) is None,
            forall|device: int|
                1 <= device <= upto ==> (#[trigger] self.table[device]).hook != HookState::Pending,
        decreases upto,
    {
        if upto > 0 {
            self.lemma_no_fault_no_pending(widths, (upto - 1) as nat);
        }
    }
}

/// Every device of a context whose mapping is final has an input range as
/// wide as the inputs record and an output range as wide as the outputs
/// record, both inside the image.
pub proof fn lemma_mapped_devices_fit_records(context: ContextModel, device: int)
    requires
        context.wf(),
        context.mapped,
        context.has_device(device),
    ensures
        context.table[device].inputs.length == INPUTS_SIZE,
        context.table[device].outputs.length == OUTPUTS_SIZE,
        context.table[device].outputs.spec_end() <= context.outputs_len(),
        context.outputs_len() <= context.table[device].inputs.start,
        context.table[device].inputs.spec_end() <= context.outputs_len() + context.inputs_len(),
        context.outputs_len() + context.inputs_len() <= IMAGE_SIZE,
{
}

/// A region that is not as wide as its typed record fails the configuration:
/// the mapping is not made final, and the context stays as it was.
pub proof fn lemma_mismatch_fails_configuration(
    context: ContextModel,
    widths: Seq<RegionWidths>,
    device: int,
)
    requires
        context.has_device(device),
        widths.len() == context.count,
        widths[device - 1].outputs != OUTPUTS_SIZE || widths[device - 1].inputs != INPUTS_SIZE,
    ensures
        context.mapping_fault(widths) is Some,
        context.after_mapping(widths) == context,
{
    if !context.mapped {
        assert(context.device_fault(widths[device - 1], device) is Some);
        assert(context.first_fault(widths, device as nat) is Some);
        context.lemma_fault_persists(widths, device as nat, context.count);
    }
}

/// A hook that was registered and has not run keeps the mapping from being
/// made final.
pub proof fn lemma_pending_hook_fails_configuration(
    context: ContextModel,
    widths: Seq<RegionWidths>,
    device: int,
)
    requires
        context.hook_due(device),
    ensures
        context.mapping_fault(widths) is Some,
{
    if !context.mapped && widths.len() == context.count {
        assert(context.device_fault(widths[device - 1], device) is Some);
        assert(context.first_fault(widths, device as nat) is Some);
        context.lemma_fault_persists(widths, device as nat, context.count);
    }
}

/// A hook runs once at most: once taken it is not due again, and taking it
/// again changes nothing.
pub proof fn lemma_hook_runs_once(context: ContextModel, device: int)
    requires
        context.wf(),
    ensures
        !context.after_hook(device).hook_due(device),
        context.after_hook(device).after_hook(device) == context.after_hook(device),
{
}

/// The ranges of a final mapping share no byte: the outputs of one device lie
/// apart from the inputs of every device, and two devices have neither their
/// outputs nor their inputs in common.
pub proof fn lemma_ranges_are_disjoint(context: ContextModel, one: int, other: int)
    requires
        context.wf(),
        context.mapped,
        context.has_device(one),
        context.has_device(other),
    ensures
        context.table[one].outputs.disjoint_from(context.table[other].inputs),
        one != other ==> context.table[one].outputs.disjoint_from(context.table[other].outputs),
        one != other ==> context.table[one].inputs.disjoint_from(context.table[other].inputs),
{
}

/// What is written to the outputs of a device is read back from them, and
/// touches neither the outputs of another device nor the inputs of any.
pub proof fn lemma_outputs_read_back(
    context: ContextModel,
    device: int,
    record: OutputsRecord,
    other: int,
)
    requires
        context.wf(),
        context.serves(device),
    ensures
        context.with_outputs(device, record).outputs_of(device) == Some(record),
        other != device ==> context.with_outputs(device, record).outputs_of(other)
            == context.outputs_of(other),
        context.with_outputs(device, record).inputs_of(other) == context.inputs_of(other),
{
    let after = context.with_outputs(device, record);
    let bytes = record.spec_encode();
    crate::image::lemma_outputs_round_trip(record);
    assert(after.bytes_of(after.outputs_range(device)) =~= bytes);
    if context.serves(other) {
        assert(after.bytes_of(after.inputs_range(other)) =~= context.bytes_of(
            context.inputs_range(other),
        ));
        if other != device {
            assert(after.bytes_of(after.outputs_range(other)) =~= context.bytes_of(
                context.outputs_range(other),
            ));
        }
    }
}

/// Receiving the inputs segment leaves the outputs of every device as the
/// control side last wrote them.
pub proof fn lemma_inputs_leave_outputs(context: ContextModel, received: Seq<u8>, device: int)
    requires
        context.wf(),
    ensures
        context.with_inputs(received).outputs_of(device) == context.outputs_of(device),
{
    let after = context.with_inputs(received);
    if context.accepts_inputs(received) && context.serves(device) {
        assert(after.bytes_of(after.outputs_range(device)) =~= context.bytes_of(
            context.outputs_range(device),
        ));
    }
}

/// The inputs of a device are read from its six bytes of what was received.
pub proof fn lemma_inputs_read_back(context: ContextModel, received: Seq<u8>, device: int)
    requires
        context.wf(),
        context.accepts_inputs(received),
        context.has_device(device),
    ensures
        context.with_inputs(received).inputs_of(device) == Some(
            InputsRecord::spec_decode(
                received.subrange((device - 1) * INPUTS_SIZE, device * INPUTS_SIZE),
            ),
        ),
{
    let after = context.with_inputs(received);
    assert(after.bytes_of(after.inputs_range(device)) =~= received.subrange(
        (device - 1) * INPUTS_SIZE,
        device * INPUTS_SIZE,
    ));
}

} // verus!
